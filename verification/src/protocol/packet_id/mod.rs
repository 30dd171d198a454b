//! The packet id catalogue. The same number means different packets in
//! different phases and directions.

pub mod clientbound;
pub mod serverbound;

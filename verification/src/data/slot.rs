//! Item stacks as packets carry them, and the values of their components.

use crate::codec::signed_value;
use crate::data::component::TextComponent;
use crate::data::IdOr;
use crate::error::ProtocolFault;
use crate::error::ServerError;
use crate::packet::Packet;
use crate::packet::PacketView;
use vstd::prelude::*;

verus! {

/// The number of component kinds that an item stack can carry.
pub const SLOT_COMPONENT_LENGTH: u16 = 96;

/// The variant of a chicken, by name or by registry id.
#[derive(Debug, Clone, PartialEq, Eq)]
pub enum ChickenVariant {
    ByName(String),
    ById(u32),
}

/// A painting: its size in blocks, its texture, and who made it.
#[derive(Debug, Clone, PartialEq, Eq)]
pub struct PaintingVariant {
    pub width: i32,
    pub height: i32,
    /// The texture of the painting.
    pub asset_id: String,
    pub title: Option<TextComponent>,
    pub author: Option<TextComponent>,
}

/// The trim material that an item provides, by name or by value.
#[derive(Debug, Clone, PartialEq, Eq)]
pub enum ProvidesTrimMaterial {
    ByName(String),
    ById(IdOr<TrimMaterial>),
}

/// What a block state property must be: one value, or within a range.
#[derive(Debug, Clone, PartialEq, Eq)]
pub enum BlockPredicatePropertyMatch {
    Exact(String),
    Range(String, String),
}

/// A condition on one block state property.
#[derive(Debug, Clone, PartialEq, Eq)]
pub struct BlockPredicateProperty {
    pub name: String,
    pub matches: BlockPredicatePropertyMatch,
}

/// An armour trim material.
#[derive(Debug, Clone, PartialEq, Eq)]
pub struct TrimMaterial {
    pub suffix: String,
    /// Armour material type and the asset name that replaces the default.
    pub overrides: Vec<(String, String)>,
    pub description: TextComponent,
}

/// An armour trim pattern.
#[derive(Debug, Clone, PartialEq, Eq)]
pub struct TrimPattern {
    pub asset_name: String,
    pub template_item: i32,
    pub description: TextComponent,
    pub decal: bool,
}

/// The strength and duration of a potion effect.
#[derive(Debug, PartialEq, Eq)]
pub struct PotionEffectDetail {
    pub amplifier: i32,
    /// In ticks; -1 for an effect that never ends.
    pub duration: i32,
    pub ambient: bool,
    pub show_particles: bool,
    pub show_icon: bool,
    pub hidden_effect: Option<Box<PotionEffectDetail>>,
}

impl Clone for PotionEffectDetail {
    fn clone(&self) -> (copy: PotionEffectDetail)
        ensures
            copy == *self,
        decreases self,
    {
        let hidden_effect: Option<Box<PotionEffectDetail>> = match &self.hidden_effect {
            Some(hidden) => {
                proof {
                    assert(self.hidden_effect->0 == *hidden);
                    assert(decreases_to!(self.hidden_effect => self.hidden_effect->0));
                    assert(decreases_to!(*self => self.hidden_effect));
                }
                Some(Box::new((**hidden).clone()))
            },
            None => None,
        };
        PotionEffectDetail {
            amplifier: self.amplifier,
            duration: self.duration,
            ambient: self.ambient,
            show_particles: self.show_particles,
            show_icon: self.show_icon,
            hidden_effect,
        }
    }
}

/// A potion effect: its kind and its detail.
#[derive(Debug, PartialEq, Eq)]
pub struct PotionEffect {
    pub type_id: u32,
    pub detail: PotionEffectDetail,
}

impl Clone for PotionEffect {
    fn clone(&self) -> (copy: PotionEffect)
        ensures
            copy == *self,
    {
        PotionEffect { type_id: self.type_id, detail: self.detail.clone() }
    }
}

/// One explosion of a firework.
#[derive(Debug, Clone, PartialEq, Eq)]
pub struct FireworkExplosion {
    /// 0 small ball, 1 large ball, 2 star, 3 creeper, 4 burst.
    pub shape: u8,
    pub colors: Vec<i32>,
    pub fade_colors: Vec<i32>,
    pub has_trail: bool,
    pub has_twinkle: bool,
}

/// One layer of a banner.
#[derive(Debug, Clone, PartialEq, Eq)]
pub struct BannerLayer {
    pub pattern_type: i32,
    pub asset_id: Option<String>,
    pub translation_key: Option<String>,
    /// A dye colour, 0 (white) to 15 (black).
    pub color: u8,
}

/// An item stack whose components are given by their hashes.
#[derive(Debug, Clone, PartialEq, Eq)]
pub struct HashedSlot {
    pub id: i32,
    pub amount: i32,
    /// Component kind and the hash of the component's value.
    pub components: Vec<(u16, i32)>,
}


/// A hashed item stack as mathematical values.
pub struct HashedSlotView {
    pub id: i32,
    pub amount: i32,
    pub components: Seq<(u16, i32)>,
}

impl View for HashedSlot {
    type V = HashedSlotView;

    open spec fn view(&self) -> HashedSlotView {
        HashedSlotView { id: self.id, amount: self.amount, components: self.components@ }
    }
}

/// Where reading `count` pairs of component kind and hash leads: the pairs,
/// and the packet behind them. A kind outside sixteen unsigned bits is
/// refused.
pub open spec fn pairs_read(packet: PacketView, count: nat) -> Result<
    (Seq<(u16, i32)>, PacketView),
    ServerError,
>
    decreases count,
{
    if count == 0 {
        Ok((Seq::empty(), packet))
    } else {
        match pairs_read(packet, (count - 1) as nat) {
            Err(error) => Err(error),
            Ok((pairs, at)) => match at.take_varint() {
                Err(error) => Err(error),
                Ok((kind, second)) => if kind < 0 || kind > 0xffff {
                    Err(ServerError::Protocol(ProtocolFault::VarInt))
                } else {
                    match second.take_unsigned(4) {
                        Err(error) => Err(error),
                        Ok((hash, third)) => Ok(
                            (pairs.push((kind as u16, signed_value(hash, 4) as i32)), third),
                        ),
                    }
                },
            },
        }
    }
}

/// The hashed item stack at the cursor, and the packet behind it. An amount
/// of zero or less is an empty slot. The count of removed components is read
/// and passed over.
pub open spec fn hashed_slot_of(packet: PacketView) -> Result<
    (Option<HashedSlotView>, PacketView),
    ServerError,
> {
    match packet.take_varint() {
        Err(error) => Err(error),
        Ok((amount, second)) => if amount <= 0 {
            Ok((None, second))
        } else {
            match second.take_varint() {
                Err(error) => Err(error),
                Ok((id, third)) => match third.take_varint() {
                    Err(error) => Err(error),
                    Ok((count, fourth)) => match fourth.take_varint() {
                        Err(error) => Err(error),
                        Ok((_, fifth)) => match pairs_read(
                            fifth,
                            if count > 0 {
                                count as nat
                            } else {
                                0
                            },
                        ) {
                            Err(error) => Err(error),
                            Ok((components, rest)) => Ok(
                                (Some(HashedSlotView { id, amount, components }), rest),
                            ),
                        },
                    },
                },
            }
        },
    }
}

/// The place of the first `kind` in `kinds`, or the length of `kinds` if
/// there is none.
pub open spec fn first_place(kinds: Seq<u16>, kind: u16) -> int
    decreases kinds.len(),
{
    if kinds.len() == 0 {
        0
    } else if kinds[0] == kind {
        0
    } else {
        1 + first_place(kinds.drop_first(), kind)
    }
}

/// `kinds` without the first `kind`, whose place the last kind takes.
pub open spec fn without_kind(kinds: Seq<u16>, kind: u16) -> Seq<u16> {
    let place = first_place(kinds, kind);
    if place < kinds.len() {
        kinds.update(place, kinds.last()).drop_last()
    } else {
        kinds
    }
}

/// The component kinds from zero up to `count`.
pub open spec fn all_kinds(count: nat) -> Seq<u16> {
    Seq::new(count, |i: int| i as u16)
}

/// The kinds that are left of all kinds once the first `count` of
/// `components` are taken out, one after the other.
pub open spec fn kinds_left(components: Seq<(u16, i32)>, count: nat) -> Seq<u16>
    decreases count,
{
    if count == 0 {
        all_kinds(SLOT_COMPONENT_LENGTH as nat)
    } else {
        without_kind(kinds_left(components, (count - 1) as nat), components[count - 1].0)
    }
}

/// The packet with the first `count` pairs of kind and hash appended.
pub open spec fn with_pairs(packet: PacketView, components: Seq<(u16, i32)>, count: nat) -> PacketView
    decreases count,
{
    if count == 0 {
        packet
    } else {
        with_pairs(packet, components, (count - 1) as nat).with_varint(
            components[count - 1].0 as i32,
        ).with_signed(components[count - 1].1 as int, 4)
    }
}

/// The packet with the first `count` of `kinds` appended.
pub open spec fn with_kinds(packet: PacketView, kinds: Seq<u16>, count: nat) -> PacketView
    decreases count,
{
    if count == 0 {
        packet
    } else {
        with_kinds(packet, kinds, (count - 1) as nat).with_varint(kinds[count - 1] as i32)
    }
}

/// The packet with a hashed item stack appended: for an empty slot a zero;
/// else amount, id, the number of components, the number of component kinds
/// less the number of components, the components, and the kinds that are
/// left once the kinds of the components are taken out.
pub open spec fn with_hashed_slot(packet: PacketView, slot: Option<HashedSlotView>) -> PacketView {
    match slot {
        None => packet.with_varint(0),
        Some(slot) => {
            let count = slot.components.len();
            let left = kinds_left(slot.components, count);
            with_kinds(
                with_pairs(
                    packet.with_varint(slot.amount).with_varint(slot.id).with_varint(
                        count as i32,
                    ).with_varint((SLOT_COMPONENT_LENGTH - count) as i32),
                    slot.components,
                    count,
                ),
                left,
                left.len(),
            )
        },
    }
}

fn place_of(kinds: &Vec<u16>, kind: u16) -> (place: usize)
    ensures
        place == first_place(kinds@, kind),
        place <= kinds@.len(),
{
    let mut place: usize = 0;
    assert(kinds@.subrange(0, kinds@.len() as int) =~= kinds@);
    while place < kinds.len()
        invariant
            place <= kinds@.len(),
            first_place(kinds@, kind) == place + first_place(
                kinds@.subrange(place as int, kinds@.len() as int),
                kind,
            ),
        decreases kinds@.len() - place,
    {
        let ghost rest = kinds@.subrange(place as int, kinds@.len() as int);
        assert(rest[0] == kinds@[place as int]);
        if kinds[place] == kind {
            return place;
        }
        assert(rest.drop_first() =~= kinds@.subrange(place as int + 1, kinds@.len() as int));
        place = place + 1;
    }
    place
}

impl Packet {
    /// Reads a hashed item stack. A read that fails leaves the packet as it
    /// was.
    #[verifier::loop_isolation(false)]
    pub fn read_hashed_slot(&mut self) -> (r: Result<Option<HashedSlot>, ServerError>)
        ensures
            match hashed_slot_of(old(self)@) {
                Ok((Some(slot), rest)) => (r matches Ok(Some(read)) && read@ == slot) && final(self)@ == rest,
                Ok((None, rest)) => (r matches Ok(None)) && final(self)@ == rest,
                Err(error) => (r matches Err(e) && e == error) && final(self)@ == old(self)@,
            },
    {
        let start: usize = self.position();
        let ghost begin = self@;
        assert(begin == (PacketView { id: begin.id, bytes: begin.bytes, cursor: start as int }));
        let amount: i32 = match self.read_varint() {
            Ok(value) => value,
            Err(error) => { return Err(error); },
        };
        if amount <= 0 {
            return Ok(None);
        }
        let id: i32 = match self.read_varint() {
            Ok(value) => value,
            Err(error) => {
                self.set_position(start);
                return Err(error);
            },
        };
        let count: i32 = match self.read_varint() {
            Ok(value) => value,
            Err(error) => {
                self.set_position(start);
                return Err(error);
            },
        };
        match self.read_varint() {
            Ok(_) => {},
            Err(error) => {
                self.set_position(start);
                return Err(error);
            },
        }
        let ghost fifth = self@;
        let mut components: Vec<(u16, i32)> = Vec::new();
        let mut done: i32 = 0;
        while done < count
            invariant
                0 <= done,
                count > 0 ==> done <= count,
                count <= 0 ==> done == 0,
                self@.id == begin.id,
                self@.bytes == begin.bytes,
                begin == (PacketView { id: begin.id, bytes: begin.bytes, cursor: start as int }),
                pairs_read(fifth, done as nat) == Ok::<(Seq<(u16, i32)>, PacketView), ServerError>(
                    (components@, self@),
                ),
            decreases count - done,
        {
            let kind: u16 = match self.read_u16_varint() {
                Ok(value) => value,
                Err(error) => {
                    self.set_position(start);
                    proof {
                        lemma_pairs_stay_failed(fifth, (done + 1) as nat, count as nat);
                    }
                    return Err(error);
                },
            };
            proof {
                crate::codec::lemma_pow256_values();
                crate::codec::lemma_be_value_bound(self@.bytes, self@.cursor, 4);
            }
            let hash: i32 = match self.read_int() {
                Ok(value) => value,
                Err(error) => {
                    self.set_position(start);
                    proof {
                        lemma_pairs_stay_failed(fifth, (done + 1) as nat, count as nat);
                    }
                    return Err(error);
                },
            };
            components.push((kind, hash));
            done = done + 1;
        }
        Ok(Some(HashedSlot { id, amount, components }))
    }

    /// Appends a hashed item stack of at most as many components as there
    /// are component kinds.
    pub fn write_hashed_slot(&mut self, slot: Option<HashedSlot>)
        requires
            slot matches Some(stack) ==> stack.components@.len() <= SLOT_COMPONENT_LENGTH,
        ensures
            final(self)@ == with_hashed_slot(
                old(self)@,
                match slot {
                    Some(stack) => Some(stack@),
                    None => None,
                },
            ),
    {
        match slot {
            None => {
                self.write_varint(0);
            },
            Some(stack) => {
                let count: usize = stack.components.len();
                self.write_varint(stack.amount);
                self.write_varint(stack.id);
                self.write_varint(count as i32);
                self.write_varint((SLOT_COMPONENT_LENGTH as usize - count) as i32);
                let ghost head = self@;
                let mut left: Vec<u16> = Vec::new();
                let mut kind: u16 = 0;
                while kind < SLOT_COMPONENT_LENGTH
                    invariant
                        kind <= SLOT_COMPONENT_LENGTH,
                        left@ == all_kinds(kind as nat),
                    decreases SLOT_COMPONENT_LENGTH - kind,
                {
                    left.push(kind);
                    kind = kind + 1;
                    assert(left@ =~= all_kinds(kind as nat));
                }
                let mut done: usize = 0;
                while done < count
                    invariant
                        done <= count,
                        count == stack.components@.len(),
                        left@ == kinds_left(stack.components@, done as nat),
                        self@ == with_pairs(head, stack.components@, done as nat),
                    decreases count - done,
                {
                    let pair: (u16, i32) = stack.components[done];
                    self.write_u16_varint(pair.0);
                    self.write_int(pair.1);
                    let place: usize = place_of(&left, pair.0);
                    if place < left.len() {
                        let _ = left.swap_remove(place);
                    }
                    done = done + 1;
                }
                let ghost body = self@;
                let mut sent: usize = 0;
                while sent < left.len()
                    invariant
                        sent <= left@.len(),
                        self@ == with_kinds(body, left@, sent as nat),
                    decreases left@.len() - sent,
                {
                    self.write_u16_varint(left[sent]);
                    sent = sent + 1;
                }
            },
        }
    }
}

/// Once a pair could not be read, no further pair is.
proof fn lemma_pairs_stay_failed(packet: PacketView, failed: nat, upto: nat)
    requires
        pairs_read(packet, failed) is Err,
    ensures
        upto >= failed ==> pairs_read(packet, upto) == pairs_read(packet, failed),
    decreases upto,
{
    if upto > failed {
        lemma_pairs_stay_failed(packet, failed, (upto - 1) as nat);
    }
}

} // verus!

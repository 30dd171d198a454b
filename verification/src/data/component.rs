//! Text components: styled text that nests.

use vstd::prelude::*;

verus! {

/// A piece of styled text, with further pieces behind it.
#[derive(Debug, PartialEq, Eq)]
pub struct TextComponent {
    pub text: String,
    pub color: Option<String>,
    pub bold: Option<bool>,
    pub italic: Option<bool>,
    pub underlined: Option<bool>,
    pub strikethrough: Option<bool>,
    pub obfuscated: Option<bool>,
    pub extra: Option<Vec<TextComponent>>,
}

impl TextComponent {
    /// Whether a component is plain: it has no style and nothing behind it.
    pub open spec fn is_plain(&self) -> bool {
        &&& self.color is None
        &&& self.bold is None
        &&& self.italic is None
        &&& self.underlined is None
        &&& self.strikethrough is None
        &&& self.obfuscated is None
        &&& self.extra is None
    }

    /// Plain text.
    pub fn new(text: String) -> (component: TextComponent)
        ensures
            component.text == text,
            component.is_plain(),
    {
        TextComponent {
            text,
            color: None,
            bold: None,
            italic: None,
            underlined: None,
            strikethrough: None,
            obfuscated: None,
            extra: None,
        }
    }

    /// A builder that starts from empty plain text.
    pub fn builder() -> (builder: TextComponentBuilder)
        ensures
            builder.built().text@ == Seq::<char>::empty(),
            builder.built().is_plain(),
    {
        TextComponentBuilder::new()
    }
}

/// What a component and all components behind it hold, as mathematical
/// values.
pub struct TextComponentView {
    pub text: Seq<char>,
    pub color: Option<Seq<char>>,
    pub bold: Option<bool>,
    pub italic: Option<bool>,
    pub underlined: Option<bool>,
    pub strikethrough: Option<bool>,
    pub obfuscated: Option<bool>,
    pub extra: Option<Seq<TextComponentView>>,
}

impl TextComponent {
    /// What this component holds, and the components behind it.
    pub open spec fn deep(&self) -> TextComponentView
        decreases self,
    {
        TextComponentView {
            text: self.text@,
            color: match self.color {
                Some(color) => Some(color@),
                None => None,
            },
            bold: self.bold,
            italic: self.italic,
            underlined: self.underlined,
            strikethrough: self.strikethrough,
            obfuscated: self.obfuscated,
            extra: match self.extra {
                Some(extra) => Some(
                    Seq::new(
                        extra@.len(),
                        |i: int|
                            if 0 <= i < extra@.len() {
                                extra@[i].deep()
                            } else {
                                arbitrary()
                            },
                    ),
                ),
                None => None,
            },
        }
    }
}

impl Clone for TextComponent {
    fn clone(&self) -> (copy: TextComponent)
        ensures
            copy.deep() == self.deep(),
        decreases self,
    {
        let extra: Option<Vec<TextComponent>> = match &self.extra {
            None => None,
            Some(items) => {
                let mut copies: Vec<TextComponent> = Vec::new();
                let mut i: usize = 0;
                while i < items.len()
                    invariant
                        i <= items@.len(),
                        self.extra == Some(*items),
                        copies@.len() == i,
                        forall|k: int| 0 <= k < i ==> copies@[k].deep() == items@[k].deep(),
                    decreases items@.len() - i,
                {
                    proof {
                        vstd::std_specs::vec::axiom_vec_index_decreases(*items, i as int);
                        assert(decreases_to!(*items => items@[i as int]));
                        assert(self.extra->0 == *items);
                        assert(decreases_to!(self.extra => self.extra->0));
                        assert(decreases_to!(*self => self.extra));
                    }
                    copies.push(items[i].clone());
                    i = i + 1;
                }
                Some(copies)
            },
        };
        let copy = TextComponent {
            text: self.text.clone(),
            color: self.color.clone(),
            bold: self.bold,
            italic: self.italic,
            underlined: self.underlined,
            strikethrough: self.strikethrough,
            obfuscated: self.obfuscated,
            extra,
        };
        proof {
            if self.extra is Some {
                assert(copy.deep().extra->0 =~= self.deep().extra->0);
            }
        }
        copy
    }
}

impl Default for TextComponent {
    fn default() -> (component: TextComponent)
        ensures
            component.text@ == Seq::<char>::empty(),
            component.is_plain(),
    {
        TextComponent::new(String::new())
    }
}

/// Builds a text component field by field.
pub struct TextComponentBuilder {
    text: String,
    color: Option<String>,
    bold: Option<bool>,
    italic: Option<bool>,
    underlined: Option<bool>,
    strikethrough: Option<bool>,
    obfuscated: Option<bool>,
    extra: Option<Vec<TextComponent>>,
}

/// Whether two components differ in nothing but their text.
pub open spec fn same_style(first: TextComponent, second: TextComponent) -> bool {
    &&& first.color == second.color
    &&& first.bold == second.bold
    &&& first.italic == second.italic
    &&& first.underlined == second.underlined
    &&& first.strikethrough == second.strikethrough
    &&& first.obfuscated == second.obfuscated
    &&& first.extra == second.extra
}

impl TextComponentBuilder {
    /// The component that `build` gives.
    pub closed spec fn built(&self) -> TextComponent {
        TextComponent {
            text: self.text,
            color: self.color,
            bold: self.bold,
            italic: self.italic,
            underlined: self.underlined,
            strikethrough: self.strikethrough,
            obfuscated: self.obfuscated,
            extra: self.extra,
        }
    }

    /// A builder that starts from empty plain text.
    pub fn new() -> (builder: TextComponentBuilder)
        ensures
            builder.built().text@ == Seq::<char>::empty(),
            builder.built().is_plain(),
    {
        TextComponentBuilder {
            text: String::new(),
            color: None,
            bold: None,
            italic: None,
            underlined: None,
            strikethrough: None,
            obfuscated: None,
            extra: None,
        }
    }

    /// Sets the text.
    pub fn text(self, text: &str) -> (builder: TextComponentBuilder)
        ensures
            builder.built().text@ == text@,
            same_style(builder.built(), self.built()),
    {
        let mut builder: TextComponentBuilder = self;
        builder.text = text.to_owned();
        builder
    }

    /// Sets the colour, by name or as `#RRGGBB`.
    pub fn color(self, color: &str) -> (builder: TextComponentBuilder)
        ensures
            builder.built().color matches Some(name) && name@ == color@,
            builder.built() == (TextComponent { color: builder.built().color, ..self.built() }),
    {
        let mut builder: TextComponentBuilder = self;
        builder.color = Some(color.to_owned());
        builder
    }

    /// Sets whether the text is bold.
    pub fn bold(self, bold: bool) -> (builder: TextComponentBuilder)
        ensures
            builder.built() == (TextComponent { bold: Some(bold), ..self.built() }),
    {
        let mut builder: TextComponentBuilder = self;
        builder.bold = Some(bold);
        builder
    }

    /// Sets whether the text is italic.
    pub fn italic(self, italic: bool) -> (builder: TextComponentBuilder)
        ensures
            builder.built() == (TextComponent { italic: Some(italic), ..self.built() }),
    {
        let mut builder: TextComponentBuilder = self;
        builder.italic = Some(italic);
        builder
    }

    /// Sets whether the text is underlined.
    pub fn underlined(self, underlined: bool) -> (builder: TextComponentBuilder)
        ensures
            builder.built() == (TextComponent { underlined: Some(underlined), ..self.built() }),
    {
        let mut builder: TextComponentBuilder = self;
        builder.underlined = Some(underlined);
        builder
    }

    /// Sets whether the text is struck through.
    pub fn strikethrough(self, strikethrough: bool) -> (builder: TextComponentBuilder)
        ensures
            builder.built() == (TextComponent {
                strikethrough: Some(strikethrough),
                ..self.built()
            }),
    {
        let mut builder: TextComponentBuilder = self;
        builder.strikethrough = Some(strikethrough);
        builder
    }

    /// Sets whether the text is obfuscated.
    pub fn obfuscated(self, obfuscated: bool) -> (builder: TextComponentBuilder)
        ensures
            builder.built() == (TextComponent { obfuscated: Some(obfuscated), ..self.built() }),
    {
        let mut builder: TextComponentBuilder = self;
        builder.obfuscated = Some(obfuscated);
        builder
    }

    /// Sets the components that follow this one.
    pub fn extra(self, extra: Vec<TextComponent>) -> (builder: TextComponentBuilder)
        ensures
            builder.built() == (TextComponent { extra: Some(extra), ..self.built() }),
    {
        let mut builder: TextComponentBuilder = self;
        builder.extra = Some(extra);
        builder
    }

    /// The component with every field as it was set.
    pub fn build(self) -> (component: TextComponent)
        ensures
            component == self.built(),
    {
        TextComponent {
            text: self.text,
            color: self.color,
            bold: self.bold,
            italic: self.italic,
            underlined: self.underlined,
            strikethrough: self.strikethrough,
            obfuscated: self.obfuscated,
            extra: self.extra,
        }
    }
}

} // verus!

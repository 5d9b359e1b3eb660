//! Message cards: a title, a description, named fields, a footer and
//! pictures, as plain values.

use vstd::prelude::*;
use vstd::string::*;

verus! {

/// A colour in red, green and blue.
#[derive(Clone, Copy, Debug, PartialEq, Eq, Structural)]
pub struct Color {
    pub red: u8,
    pub green: u8,
    pub blue: u8,
}

/// The colour of the bot's cards.
pub open spec fn card_color() -> Color {
    Color { red: 0x58, green: 0x65, blue: 0xF2 }
}

/// The colour of the help cards.
pub open spec fn help_color() -> Color {
    Color { red: 255, green: 165, blue: 0 }
}

/// A named field of a card.
#[derive(Clone, Debug, PartialEq, Eq)]
pub struct EmbedField {
    pub name: String,
    pub value: String,
    pub inline: bool,
}

/// What a field holds.
pub ghost struct FieldModel {
    pub name: Seq<char>,
    pub value: Seq<char>,
    pub inline: bool,
}

impl View for EmbedField {
    type V = FieldModel;

    open spec fn view(&self) -> FieldModel {
        FieldModel { name: self.name@, value: self.value@, inline: self.inline }
    }
}

/// A card.
#[derive(Clone, Debug, PartialEq, Eq)]
pub struct Embed {
    pub title: String,
    pub description: Option<String>,
    pub color: Color,
    pub fields: Vec<EmbedField>,
    pub footer: Option<String>,
    pub footer_icon: Option<String>,
    pub image: Option<String>,
    pub thumbnail: Option<String>,
}

/// What a card holds.
pub ghost struct EmbedModel {
    pub title: Seq<char>,
    pub description: Option<Seq<char>>,
    pub color: Color,
    pub fields: Seq<FieldModel>,
    pub footer: Option<Seq<char>>,
    pub footer_icon: Option<Seq<char>>,
    pub image: Option<Seq<char>>,
    pub thumbnail: Option<Seq<char>>,
}

/// The text of an optional string.
pub open spec fn text_of(s: Option<String>) -> Option<Seq<char>> {
    match s {
        Some(s) => Some(s@),
        None => None,
    }
}

/// A card with a title and a colour and nothing else.
pub open spec fn blank(title: Seq<char>, color: Color) -> EmbedModel {
    EmbedModel {
        title,
        description: None,
        color,
        fields: Seq::empty(),
        footer: None,
        footer_icon: None,
        image: None,
        thumbnail: None,
    }
}

impl EmbedModel {
    /// The card with the description `text`.
    pub open spec fn described(self, text: Seq<char>) -> EmbedModel {
        EmbedModel { description: Some(text), ..self }
    }

    /// The card in the colour `color`.
    pub open spec fn colored(self, color: Color) -> EmbedModel {
        EmbedModel { color, ..self }
    }

    /// The card with one more field after those that are there.
    pub open spec fn with_field(self, name: Seq<char>, value: Seq<char>, inline: bool) -> EmbedModel {
        EmbedModel { fields: self.fields.push(FieldModel { name, value, inline }), ..self }
    }

    /// The card with the footer `text` beside the picture at `icon`.
    pub open spec fn signed(self, text: Seq<char>, icon: Seq<char>) -> EmbedModel {
        EmbedModel { footer: Some(text), footer_icon: Some(icon), ..self }
    }

    /// The card with the picture at `url`.
    pub open spec fn with_picture(self, url: Seq<char>) -> EmbedModel {
        EmbedModel { image: Some(url), ..self }
    }

    /// The card with the small picture at `url`.
    pub open spec fn with_small_picture(self, url: Seq<char>) -> EmbedModel {
        EmbedModel { thumbnail: Some(url), ..self }
    }
}

impl View for Embed {
    type V = EmbedModel;

    open spec fn view(&self) -> EmbedModel {
        EmbedModel {
            title: self.title@,
            description: text_of(self.description),
            color: self.color,
            fields: self.fields@.map_values(|f: EmbedField| f@),
            footer: text_of(self.footer),
            footer_icon: text_of(self.footer_icon),
            image: text_of(self.image),
            thumbnail: text_of(self.thumbnail),
        }
    }
}

impl Embed {
    /// A card in the bot's colour with a title and nothing else.
    pub fn new(title: &str) -> (r: Embed)
        ensures
            r@ == blank(title@, card_color()),
    {
        let r = Embed {
            title: String::from_str(title),
            description: None,
            color: Color { red: 0x58, green: 0x65, blue: 0xF2 },
            fields: Vec::new(),
            footer: None,
            footer_icon: None,
            image: None,
            thumbnail: None,
        };
        proof {
            assert(r@.fields =~= Seq::empty());
        }
        r
    }

    /// Sets the colour.
    pub fn set_color(&mut self, color: Color)
        ensures
            final(self)@ == old(self)@.colored(color),
    {
        self.color = color;
    }

    /// Sets the description.
    pub fn describe(&mut self, text: &str)
        ensures
            final(self)@ == old(self)@.described(text@),
    {
        self.description = Some(String::from_str(text));
    }

    /// Adds a field after those that are there.
    pub fn field(&mut self, name: &str, value: &str, inline: bool)
        ensures
            final(self)@ == old(self)@.with_field(name@, value@, inline),
    {
        let f = EmbedField { name: String::from_str(name), value: String::from_str(value), inline };
        self.fields.push(f);
        proof {
            assert(final(self)@.fields =~= old(self)@.fields.push(
                FieldModel { name: name@, value: value@, inline },
            ));
        }
    }

    /// Sets the footer and its icon.
    pub fn sign(&mut self, text: &str, icon: &str)
        ensures
            final(self)@ == old(self)@.signed(text@, icon@),
    {
        self.footer = Some(String::from_str(text));
        self.footer_icon = Some(String::from_str(icon));
    }

    /// Sets the picture.
    pub fn picture(&mut self, url: &str)
        ensures
            final(self)@ == old(self)@.with_picture(url@),
    {
        self.image = Some(String::from_str(url));
    }

    /// Sets the small picture.
    pub fn small_picture(&mut self, url: &str)
        ensures
            final(self)@ == old(self)@.with_small_picture(url@),
    {
        self.thumbnail = Some(String::from_str(url));
    }
}

/// A person who asked for a command: the name shown and the address of the
/// picture shown beside it.
#[derive(Clone, Debug)]
pub struct Requester {
    pub name: String,
    pub face: String,
}

/// `lead` followed by `name`.
pub fn credit(lead: &str, name: &str) -> (r: String)
    ensures
        r@ == lead@ + name@,
{
    let mut s = String::from_str(lead);
    s.append(name);
    s
}

} // verus!

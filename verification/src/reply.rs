//! What the bot sends back to the chat: plain texts and embeds.

use crate::colour::colour_rgb;
use crate::text::text_view;
use serenity::utils::Colour;
use vstd::prelude::*;

verus! {

/// One titled entry of an embed.
#[derive(Debug, PartialEq, Eq)]
pub struct Field {
    pub name: String,
    pub value: String,
    pub inline: bool,
}

/// A `Field` by its characters.
pub struct FieldView {
    pub name: Seq<char>,
    pub value: Seq<char>,
    pub inline: bool,
}

impl View for Field {
    type V = FieldView;

    open spec fn view(&self) -> FieldView {
        FieldView { name: self.name@, value: self.value@, inline: self.inline }
    }
}

/// The line under an embed: a text beside a small picture.
#[derive(Debug, PartialEq, Eq)]
pub struct Footer {
    pub text: String,
    pub icon_url: String,
}

/// A `Footer` by its characters.
pub struct FooterView {
    pub text: Seq<char>,
    pub icon_url: Seq<char>,
}

impl View for Footer {
    type V = FooterView;

    open spec fn view(&self) -> FooterView {
        FooterView { text: self.text@, icon_url: self.icon_url@ }
    }
}

/// The footer of an optional footer.
pub open spec fn footer_view(footer: Option<Footer>) -> Option<FooterView> {
    match footer {
        Some(f) => Some(f@),
        None => None,
    }
}

/// A framed, coloured message. Parts that are `None` are left out of the
/// message; the fields appear in their order here.
#[derive(Debug, PartialEq, Eq)]
pub struct Embed {
    pub title: Option<String>,
    pub url: Option<String>,
    pub description: Option<String>,
    pub colour: Colour,
    pub fields: Vec<Field>,
    pub thumbnail: Option<String>,
    pub footer: Option<Footer>,
}

/// An `Embed` by its characters, with the colour by its red, green and blue
/// parts.
pub struct EmbedView {
    pub title: Option<Seq<char>>,
    pub url: Option<Seq<char>>,
    pub description: Option<Seq<char>>,
    pub colour: (u8, u8, u8),
    pub fields: Seq<FieldView>,
    pub thumbnail: Option<Seq<char>>,
    pub footer: Option<FooterView>,
}

impl View for Embed {
    type V = EmbedView;

    open spec fn view(&self) -> EmbedView {
        EmbedView {
            title: text_view(self.title),
            url: text_view(self.url),
            description: text_view(self.description),
            colour: colour_rgb(self.colour),
            fields: self.fields@.map_values(|f: Field| f@),
            thumbnail: text_view(self.thumbnail),
            footer: footer_view(self.footer),
        }
    }
}

/// One message for the chat.
#[derive(Debug, PartialEq, Eq)]
pub enum Reply {
    /// A plain text, sent to the channel the command came from.
    Say(String),
    /// A plain text, sent as an answer that points at the command's message.
    Answer(String),
    /// An embed, sent to the channel the command came from.
    Embed(Embed),
}

/// A `Reply` by its characters.
pub enum ReplyView {
    Say(Seq<char>),
    Answer(Seq<char>),
    Embed(EmbedView),
}

impl View for Reply {
    type V = ReplyView;

    open spec fn view(&self) -> ReplyView {
        match *self {
            Reply::Say(text) => ReplyView::Say(text@),
            Reply::Answer(text) => ReplyView::Answer(text@),
            Reply::Embed(embed) => ReplyView::Embed(embed@),
        }
    }
}

/// The reply of an optional reply.
pub open spec fn reply_view(reply: Option<Reply>) -> Option<ReplyView> {
    match reply {
        Some(r) => Some(r@),
        None => None,
    }
}

} // verus!

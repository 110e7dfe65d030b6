//! The music commands. Each command is decided here from what the caller
//! has read of the voice session; carrying out the decision (joining,
//! queueing, sending) is the caller's part.

pub mod notifier;
pub mod playback;
pub mod queueing;
pub mod session;

use crate::colour::{dark_green, dark_green_rgb, gold, gold_rgb};
use crate::mention::{user_mention, user_mention_text};
use crate::reply::{
    Embed, EmbedView, Field, FieldView, Footer, FooterView, Reply, ReplyView, reply_view,
};
use crate::text::{copy_text, wrap};
use crate::track::{Invoker, InvokerView, TrackInfo, TrackInfoView};
use crate::utilities::{duration_formatter, duration_text, whole_seconds};
use vstd::prelude::*;
use vstd::string::StringExecFns;

verus! {

/// One operation on the voice session or on the bot's presence.
#[derive(Debug, Clone, Copy, PartialEq, Eq)]
pub enum Action {
    /// Leave everything as it is.
    Nothing,
    /// Join the voice channel with this id.
    Connect(u64),
    /// Give up the guild's voice connection.
    Disconnect,
    /// Pause the current track.
    Pause,
    /// Let the current track play on.
    Resume,
    /// Drop the current track and play the next.
    Skip,
    /// Drop the current track and all that wait.
    Stop,
    /// Take the track at this place out of the queue.
    Dequeue(usize),
    /// Let the current track repeat without end.
    EnableLoop,
    /// Let the current track end when it has played.
    DisableLoop,
    /// Set the current track's volume to the level that was asked for.
    SetVolume,
    /// Show the bot as online.
    GoOnline,
    /// Show the bot as idle.
    GoIdle,
    /// Leave the voice channel and keep the connection.
    LeaveChannel,
}

/// What a command comes to: an operation and a message. The operation is
/// carried out first, the message sent after it.
#[derive(Debug, PartialEq, Eq)]
pub struct Outcome {
    pub action: Action,
    pub reply: Option<Reply>,
}

/// An `Outcome` with its message by its characters.
pub struct OutcomeView {
    pub action: Action,
    pub reply: Option<ReplyView>,
}

impl View for Outcome {
    type V = OutcomeView;

    open spec fn view(&self) -> OutcomeView {
        OutcomeView { action: self.action, reply: reply_view(self.reply) }
    }
}

/// The outcome that only says `text`.
pub open spec fn only_say(text: Seq<char>) -> OutcomeView {
    OutcomeView { action: Action::Nothing, reply: Some(ReplyView::Say(text)) }
}

/// The outcome that carries out `action` and then says `text`.
pub open spec fn act_and_say(action: Action, text: Seq<char>) -> OutcomeView {
    OutcomeView { action, reply: Some(ReplyView::Say(text)) }
}

/// Carries out `action`, then says `text`.
pub(crate) fn outcome_say(action: Action, text: String) -> (out: Outcome)
    ensures
        out@ == act_and_say(action, text@),
{
    Outcome { action, reply: Some(Reply::Say(text)) }
}

/// Only says `text`.
pub(crate) fn outcome_tell(text: &str) -> (out: Outcome)
    ensures
        out@ == only_say(text@),
{
    Outcome { action: Action::Nothing, reply: Some(Reply::Say(text.to_owned())) }
}

/// An embed that holds a description in gold and nothing else.
pub open spec fn gold_note(description: Seq<char>) -> EmbedView {
    EmbedView {
        title: None,
        url: None,
        description: Some(description),
        colour: gold_rgb(),
        fields: Seq::empty(),
        thumbnail: None,
        footer: None,
    }
}

/// Builds the embed that holds `description` in gold.
pub(crate) fn make_gold_note(description: String) -> (e: Embed)
    ensures
        e@ == gold_note(description@),
{
    let e = Embed {
        title: None,
        url: None,
        description: Some(description),
        colour: gold(),
        fields: Vec::new(),
        thumbnail: None,
        footer: None,
    };
    assert(e@.fields =~= Seq::<FieldView>::empty());
    e
}

/// The footer that names the member who called the command.
pub open spec fn invoked_by(invoker: InvokerView) -> FooterView {
    FooterView { text: "Invoked by "@ + invoker.name, icon_url: invoker.face }
}

/// Builds the footer that names `invoker`.
pub(crate) fn make_invoked_by(invoker: &Invoker) -> (f: Footer)
    ensures
        f@ == invoked_by(invoker@),
{
    let mut text = String::from_str("Invoked by ");
    text.append(invoker.name.as_str());
    Footer { text, icon_url: invoker.face.clone() }
}

/// The fields of the announcement of a track: its length in words, the
/// member who asked for it where there is one, its author, and a link.
pub open spec fn announcement_fields(
    info: TrackInfoView,
    length: Seq<char>,
    requester: Option<u64>,
) -> Seq<FieldView>
    recommends
        info.credited(),
{
    let length = FieldView { name: "• Duration"@, value: length, inline: true };
    let author = FieldView { name: "• Author"@, value: info.channel->0, inline: true };
    let link = FieldView {
        name: "• URL"@,
        value: "[Click]("@ + info.source_url->0 + ")"@,
        inline: true,
    };
    match requester {
        Some(id) => seq![
            length,
            FieldView { name: "• Requested by"@, value: user_mention_text(id), inline: true },
            author,
            link,
        ],
        None => seq![length, author, link],
    }
}

/// The announcement of a track whose length is given in words: a dark
/// green embed titled `**Now playing**` that links to the track, shows its
/// title in a code block and its picture where it has one.
pub open spec fn announcement_with(
    info: TrackInfoView,
    length: Seq<char>,
    requester: Option<u64>,
) -> EmbedView
    recommends
        info.credited(),
{
    EmbedView {
        title: Some("**Now playing**"@),
        url: info.source_url,
        description: Some("```\n"@ + info.title->0 + "\n```"@),
        colour: dark_green_rgb(),
        fields: announcement_fields(info, length, requester),
        thumbnail: info.thumbnail,
        footer: None,
    }
}

/// The announcement of a track that starts to play, with the whole seconds
/// of its length in words.
pub open spec fn announcement(info: TrackInfoView, requester: Option<u64>) -> EmbedView
    recommends
        info.presentable(),
{
    announcement_with(info, duration_text(whole_seconds(info.duration->0) as nat), requester)
}

/// Builds the announcement of a track from its description and its length
/// in words.
pub fn announce_with(info: &TrackInfo, length: String, requester: Option<u64>) -> (e: Embed)
    requires
        info@.credited(),
    ensures
        e@ == announcement_with(info@, length@, requester),
{
    let title: &String = info.title.as_ref().unwrap();
    let url: &String = info.source_url.as_ref().unwrap();
    let author: &String = info.channel.as_ref().unwrap();
    let mut fields: Vec<Field> = Vec::new();
    fields.push(Field { name: String::from_str("• Duration"), value: length, inline: true });
    match requester {
        Some(id) => {
            fields.push(
                Field {
                    name: String::from_str("• Requested by"),
                    value: user_mention(id),
                    inline: true,
                },
            );
        },
        None => {},
    }
    fields.push(
        Field { name: String::from_str("• Author"), value: author.clone(), inline: true },
    );
    fields.push(
        Field {
            name: String::from_str("• URL"),
            value: wrap("[Click](", url.as_str(), ")"),
            inline: true,
        },
    );
    let e = Embed {
        title: Some(String::from_str("**Now playing**")),
        url: Some(url.clone()),
        description: Some(wrap("```\n", title.as_str(), "\n```")),
        colour: dark_green(),
        fields,
        thumbnail: copy_text(&info.thumbnail),
        footer: None,
    };
    assert(e@.fields =~= announcement_fields(info@, length@, requester));
    e
}

/// Builds the announcement of a track.
pub fn announce(info: &TrackInfo, requester: Option<u64>) -> (e: Embed)
    requires
        info@.presentable(),
    ensures
        e@ == announcement(info@, requester),
{
    let length = duration_formatter(*info.duration.as_ref().unwrap());
    announce_with(info, length, requester)
}

} // verus!

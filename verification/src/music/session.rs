//! Commands that bring the bot into a voice channel and out of it.

use crate::mention::{channel_mention, channel_mention_text};
use crate::music::{Action, Outcome, OutcomeView};
use crate::reply::{Reply, ReplyView};
use crate::text::{decimal_digits, push_decimal, text_view};
use vstd::prelude::*;
use vstd::string::StringExecFns;

verus! {

/// The first half of the `join` command: the bot joins the voice channel
/// that the member is in, and turns the member down who is in none.
pub open spec fn join_outcome(voice_channel: Option<u64>) -> OutcomeView {
    match voice_channel {
        Some(channel) => OutcomeView { action: Action::Connect(channel), reply: None },
        None => OutcomeView {
            action: Action::Nothing,
            reply: Some(ReplyView::Answer("Not in a voice channel"@)),
        },
    }
}

/// Decides the first half of the `join` command. `voice_channel` is the id
/// of the voice channel that the calling member is in, if any. Where the
/// outcome is to connect, `joined` says what to tell.
pub fn join(voice_channel: Option<u64>) -> (out: Outcome)
    ensures
        out@ == join_outcome(voice_channel),
{
    match voice_channel {
        Some(channel) => Outcome { action: Action::Connect(channel), reply: None },
        None => Outcome {
            action: Action::Nothing,
            reply: Some(Reply::Answer(String::from_str("Not in a voice channel"))),
        },
    }
}

/// What the bot does once it has tried to join: a message, and whether it
/// then begins to watch for the end of tracks.
#[derive(Debug, PartialEq, Eq)]
pub struct JoinReport {
    pub reply: Reply,
    pub watch_track_ends: bool,
}

/// A `JoinReport` with its message by its characters.
pub struct JoinReportView {
    pub reply: ReplyView,
    pub watch_track_ends: bool,
}

impl View for JoinReport {
    type V = JoinReportView;

    open spec fn view(&self) -> JoinReportView {
        JoinReportView { reply: self.reply@, watch_track_ends: self.watch_track_ends }
    }
}

/// The second half of the `join` command: in the channel, the bot names it
/// and begins to watch for the end of tracks; kept out, it says so.
pub open spec fn join_report(channel: u64, success: bool) -> JoinReportView {
    if success {
        JoinReportView {
            reply: ReplyView::Say("Joined "@ + channel_mention_text(channel)),
            watch_track_ends: true,
        }
    } else {
        JoinReportView {
            reply: ReplyView::Say("Error joining the channel"@),
            watch_track_ends: false,
        }
    }
}

/// Decides the second half of the `join` command. `channel` is the id of
/// the voice channel, `success` tells whether the bot got in.
pub fn joined(channel: u64, success: bool) -> (report: JoinReport)
    ensures
        report@ == join_report(channel, success),
{
    if success {
        let mut text = String::from_str("Joined ");
        text.append(channel_mention(channel).as_str());
        JoinReport { reply: Reply::Say(text), watch_track_ends: true }
    } else {
        JoinReport {
            reply: Reply::Say(String::from_str("Error joining the channel")),
            watch_track_ends: false,
        }
    }
}

/// The first half of the `leave` command: the bot gives up its voice
/// connection, and turns the command down where it is in no voice channel.
pub open spec fn leave_outcome(channel: Option<u64>) -> OutcomeView {
    match channel {
        Some(_) => OutcomeView { action: Action::Disconnect, reply: None },
        None => OutcomeView {
            action: Action::Nothing,
            reply: Some(ReplyView::Answer("Not in a voice channel"@)),
        },
    }
}

/// Decides the first half of the `leave` command. `channel` is the id of
/// the voice channel that the bot is in, `None` where the guild has no
/// voice connection. Where the outcome is to disconnect, `left` says what
/// to tell.
pub fn leave(channel: Option<u64>) -> (out: Outcome)
    ensures
        out@ == leave_outcome(channel),
{
    match channel {
        Some(_) => Outcome { action: Action::Disconnect, reply: None },
        None => Outcome {
            action: Action::Nothing,
            reply: Some(Reply::Answer(String::from_str("Not in a voice channel"))),
        },
    }
}

/// The second half of the `leave` command: the bot names the channel it
/// has left, or passes on why it could not leave.
pub open spec fn leave_report(channel: u64, failure: Option<Seq<char>>) -> ReplyView {
    match failure {
        None => ReplyView::Say("Successfully left <#"@ + decimal_digits(channel as nat) + ">"@),
        Some(reason) => ReplyView::Say("Failed: "@ + reason),
    }
}

/// Decides the second half of the `leave` command. `channel` is the id of
/// the voice channel that the bot was in, `failure` the text of the error
/// that kept it from leaving, `None` where it left.
pub fn left(channel: u64, failure: &Option<String>) -> (reply: Reply)
    ensures
        reply@ == leave_report(channel, text_view(*failure)),
{
    match failure {
        None => {
            let mut text = String::from_str("Successfully left <#");
            push_decimal(&mut text, channel as u128);
            text.append(">");
            Reply::Say(text)
        },
        Some(reason) => {
            let mut text = String::from_str("Failed: ");
            text.append(reason.as_str());
            Reply::Say(text)
        },
    }
}

} // verus!

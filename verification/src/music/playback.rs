//! Commands that act on the track at the head of the queue.

use crate::colour::{gold, gold_rgb};
use crate::music::{
    Action, Outcome, OutcomeView, act_and_say, gold_note, invoked_by, make_gold_note,
    make_invoked_by, only_say, outcome_say, outcome_tell,
};
use crate::reply::{Embed, EmbedView, FieldView, Reply, ReplyView};
use crate::text::{same_text, text_view, wrap};
use crate::track::{
    Invoker, InvokerView, LoopState, NowPlaying, NowPlayingView, PlayMode, current_view,
};
use vstd::prelude::*;
use vstd::string::StringExecFns;

verus! {

/// Whether enough is known for `pause`: the title of a current track that
/// is not paused yet.
pub open spec fn pause_known(connected: bool, current: Option<NowPlayingView>) -> bool {
    connected && current is Some && current->0.mode != PlayMode::Pause
        ==> current->0.info.title is Some
}

/// The outcome of the `pause` command. Without a connection or a current
/// track the bot says so; a track that is paused already stays as it is;
/// any other is paused and named.
pub open spec fn pause_outcome(connected: bool, current: Option<NowPlayingView>) -> OutcomeView
    recommends
        pause_known(connected, current),
{
    if !connected {
        only_say("Not in a voice channel"@)
    } else {
        match current {
            None => only_say("Nothing playing currently"@),
            Some(track) => if track.mode == PlayMode::Pause {
                only_say("Already paused"@)
            } else {
                act_and_say(Action::Pause, "Paused **"@ + track.info.title->0 + "**"@)
            },
        }
    }
}

/// Tells whether `pause` may be called on these values.
pub fn knows_pause(connected: bool, current: &Option<NowPlaying>) -> (b: bool)
    ensures
        b == pause_known(connected, current_view(*current)),
{
    if !connected {
        return true;
    }
    match current {
        None => true,
        Some(track) => match track.mode {
            PlayMode::Pause => true,
            _ => track.info.title.is_some(),
        },
    }
}

/// Decides the `pause` command. `connected` tells whether the guild has a
/// voice connection, `current` is the track at the head of the queue with
/// its state.
pub fn pause(connected: bool, current: &Option<NowPlaying>) -> (out: Outcome)
    requires
        pause_known(connected, current_view(*current)),
    ensures
        out@ == pause_outcome(connected, current_view(*current)),
{
    if !connected {
        return outcome_tell("Not in a voice channel");
    }
    match current {
        None => outcome_tell("Nothing playing currently"),
        Some(track) => match track.mode {
            PlayMode::Pause => outcome_tell("Already paused"),
            _ => outcome_say(
                Action::Pause,
                wrap("Paused **", track.info.title.as_ref().unwrap().as_str(), "**"),
            ),
        },
    }
}

/// Whether enough is known for `resume`: the title of a current track that
/// is paused.
pub open spec fn resume_known(connected: bool, current: Option<NowPlayingView>) -> bool {
    connected && current is Some && current->0.mode == PlayMode::Pause
        ==> current->0.info.title is Some
}

/// The outcome of the `resume` command. Without a connection or a current
/// track the bot says so; a paused track plays on and is named; for any
/// other track nothing is done and nothing is said.
pub open spec fn resume_outcome(connected: bool, current: Option<NowPlayingView>) -> OutcomeView
    recommends
        resume_known(connected, current),
{
    if !connected {
        only_say("No music to resume"@)
    } else {
        match current {
            None => only_say("Nothing playing currently"@),
            Some(track) => if track.mode == PlayMode::Pause {
                act_and_say(Action::Resume, "Resumed **"@ + track.info.title->0 + "**"@)
            } else {
                OutcomeView { action: Action::Nothing, reply: None }
            },
        }
    }
}

/// Tells whether `resume` may be called on these values.
pub fn knows_resume(connected: bool, current: &Option<NowPlaying>) -> (b: bool)
    ensures
        b == resume_known(connected, current_view(*current)),
{
    if !connected {
        return true;
    }
    match current {
        None => true,
        Some(track) => match track.mode {
            PlayMode::Pause => track.info.title.is_some(),
            _ => true,
        },
    }
}

/// Decides the `resume` command. `connected` tells whether the guild has a
/// voice connection, `current` is the track at the head of the queue with
/// its state.
pub fn resume(connected: bool, current: &Option<NowPlaying>) -> (out: Outcome)
    requires
        resume_known(connected, current_view(*current)),
    ensures
        out@ == resume_outcome(connected, current_view(*current)),
{
    if !connected {
        return outcome_tell("No music to resume");
    }
    match current {
        None => outcome_tell("Nothing playing currently"),
        Some(track) => match track.mode {
            PlayMode::Pause => outcome_say(
                Action::Resume,
                wrap("Resumed **", track.info.title.as_ref().unwrap().as_str(), "**"),
            ),
            _ => Outcome { action: Action::Nothing, reply: None },
        },
    }
}

/// The gold embed that reports a skip and names the member who asked.
pub open spec fn skip_embed(invoker: InvokerView) -> EmbedView {
    EmbedView {
        title: None,
        url: None,
        description: Some("Skipped {}."@),
        colour: gold_rgb(),
        fields: Seq::empty(),
        thumbnail: None,
        footer: Some(invoked_by(invoker)),
    }
}

/// The outcome of the `skip` command. Without a connection or a current
/// track the bot says so; else the current track is dropped and the skip
/// reported.
pub open spec fn skip_outcome(connected: bool, playing: bool, invoker: InvokerView) -> OutcomeView {
    if !connected {
        only_say("Not in a voice channel to play in"@)
    } else if !playing {
        only_say("Not playing any music right now"@)
    } else {
        OutcomeView { action: Action::Skip, reply: Some(ReplyView::Embed(skip_embed(invoker))) }
    }
}

/// Decides the `skip` command. `connected` tells whether the guild has a
/// voice connection, `playing` whether the queue has a current track.
pub fn skip(connected: bool, playing: bool, invoker: &Invoker) -> (out: Outcome)
    ensures
        out@ == skip_outcome(connected, playing, invoker@),
{
    if !connected {
        outcome_tell("Not in a voice channel to play in")
    } else if !playing {
        outcome_tell("Not playing any music right now")
    } else {
        let e = Embed {
            title: None,
            url: None,
            description: Some(String::from_str("Skipped {}.")),
            colour: gold(),
            fields: Vec::new(),
            thumbnail: None,
            footer: Some(make_invoked_by(invoker)),
        };
        assert(e@.fields =~= Seq::<FieldView>::empty());
        Outcome { action: Action::Skip, reply: Some(Reply::Embed(e)) }
    }
}

/// The outcome of the `stop` command: with a connection the queue is
/// emptied, the current track with it; without one the bot says so.
pub open spec fn stop_outcome(connected: bool) -> OutcomeView {
    if connected {
        act_and_say(Action::Stop, "Skipped song and cleared queue"@)
    } else {
        only_say("Not in a voice channel to play in"@)
    }
}

/// Decides the `stop` command. `connected` tells whether the guild has a
/// voice connection.
pub fn stop(connected: bool) -> (out: Outcome)
    ensures
        out@ == stop_outcome(connected),
{
    if connected {
        outcome_say(Action::Stop, String::from_str("Skipped song and cleared queue"))
    } else {
        outcome_tell("Not in a voice channel to play in")
    }
}

/// Whether the `loop` command is to make the track repeat: where `current`
/// was asked, and, where neither `current` nor `disable` was asked, for a
/// track that does not repeat without end yet.
pub open spec fn loop_enables(mode: Seq<char>, loops: LoopState) -> bool {
    mode == "current"@ || (mode != "disable"@ && loops != LoopState::Infinite)
}

/// The outcome of the `loop` command. Without a connection or a current
/// track the bot says that nothing plays. Else `current` makes the track
/// repeat without end and `disable` releases it, whatever held before; any
/// other argument, or none, switches the loop over. The reply names the
/// mode that was set.
pub open spec fn loop_outcome(
    mode: Seq<char>,
    connected: bool,
    loops: Option<LoopState>,
) -> OutcomeView {
    if !connected || loops is None {
        only_say("Nothing playing currently"@)
    } else if loop_enables(mode, loops->0) {
        OutcomeView {
            action: Action::EnableLoop,
            reply: Some(ReplyView::Embed(gold_note("Loop set to `current`"@))),
        }
    } else {
        OutcomeView {
            action: Action::DisableLoop,
            reply: Some(ReplyView::Embed(gold_note("Loop set to `disable`"@))),
        }
    }
}

/// Decides the `loop` command. `mode` is the text after the command's
/// name, `connected` tells whether the guild has a voice connection, and
/// `loops` how the current track repeats, `None` where the queue has no
/// current track.
pub fn loop_command(mode: &str, connected: bool, loops: Option<LoopState>) -> (out: Outcome)
    ensures
        out@ == loop_outcome(mode@, connected, loops),
{
    if !connected {
        return outcome_tell("Nothing playing currently");
    }
    let enable = match loops {
        None => {
            return outcome_tell("Nothing playing currently");
        },
        Some(LoopState::Infinite) => same_text(mode, "current"),
        Some(LoopState::Finite(_)) => !same_text(mode, "disable"),
    };
    proof {
        reveal_strlit("current");
        reveal_strlit("disable");
        assert("current"@ != "disable"@) by {
            assert("current"@[0] == 'c');
            assert("disable"@[0] == 'd');
        }
    }
    if enable {
        Outcome {
            action: Action::EnableLoop,
            reply: Some(Reply::Embed(make_gold_note(String::from_str("Loop set to `current`")))),
        }
    } else {
        Outcome {
            action: Action::DisableLoop,
            reply: Some(Reply::Embed(make_gold_note(String::from_str("Loop set to `disable`")))),
        }
    }
}

/// The outcome of the `volume` command. An argument that is no number, or
/// a number that does not lie from 1 to 100, is turned down; without a
/// connection or a current track the bot says that nothing plays; else the
/// volume is set and the level reported as it was written out.
pub open spec fn volume_outcome(
    level: Option<Seq<char>>,
    in_range: bool,
    connected: bool,
    playing: bool,
) -> OutcomeView {
    if level is None || !in_range {
        only_say("Volume must be a number between `1-100`"@)
    } else if !connected || !playing {
        only_say("Nothing playing currently"@)
    } else {
        OutcomeView {
            action: Action::SetVolume,
            reply: Some(ReplyView::Embed(gold_note("Set the volume to `"@ + level->0 + "`"@))),
        }
    }
}

/// Decides the `volume` command. `level` is the number that the command's
/// argument was read as, written out again, `None` where the argument was
/// no number; `in_range` tells whether that number lies from 1 to 100, both
/// ends counted; `connected` tells whether the guild has a voice
/// connection, `playing` whether the queue has a current track.
pub fn volume(
    level: &Option<String>,
    in_range: bool,
    connected: bool,
    playing: bool,
) -> (out: Outcome)
    ensures
        out@ == volume_outcome(text_view(*level), in_range, connected, playing),
{
    match level {
        None => outcome_tell("Volume must be a number between `1-100`"),
        Some(written) => {
            if !in_range {
                outcome_tell("Volume must be a number between `1-100`")
            } else if !connected || !playing {
                outcome_tell("Nothing playing currently")
            } else {
                Outcome {
                    action: Action::SetVolume,
                    reply: Some(
                        Reply::Embed(
                            make_gold_note(wrap("Set the volume to `", written.as_str(), "`")),
                        ),
                    ),
                }
            }
        },
    }
}

} // verus!

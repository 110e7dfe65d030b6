//! What the bot does when a track has come to its end.

use crate::colour::{gold, gold_rgb};
use crate::music::{Action, announce, announcement};
use crate::reply::{Embed, EmbedView, FieldView};
use crate::text::{debug_string, debug_text, wrap};
use crate::track::{TrackInfo, TrackInfoView, infos_view};
use vstd::prelude::*;
use vstd::string::StringExecFns;

verus! {

/// What follows the end of a track: a notice for the chat, an operation
/// that is carried out once the notice is sent, and whether the bot goes on
/// to watch for the end of tracks.
#[derive(Debug, PartialEq, Eq)]
pub struct TrackEndPlan {
    pub notice: Option<Embed>,
    pub after: Action,
    pub keep_watching: bool,
}

/// A `TrackEndPlan` with its notice by its characters.
pub struct TrackEndPlanView {
    pub notice: Option<EmbedView>,
    pub after: Action,
    pub keep_watching: bool,
}

impl View for TrackEndPlan {
    type V = TrackEndPlanView;

    open spec fn view(&self) -> TrackEndPlanView {
        TrackEndPlanView {
            notice: match self.notice {
                Some(e) => Some(e@),
                None => None,
            },
            after: self.after,
            keep_watching: self.keep_watching,
        }
    }
}

/// The notice that the queue has run out, around the last track's title as
/// it was written out: a gold embed titled `Queue has Ended`.
pub open spec fn farewell_with(written_title: Seq<char>) -> EmbedView {
    EmbedView {
        title: Some("Queue has Ended"@),
        url: None,
        description: Some(
            "Last song played: **"@ + written_title
                + "**\nTo continue listening, play another song!"@,
        ),
        colour: gold_rgb(),
        fields: Seq::empty(),
        thumbnail: None,
        footer: None,
    }
}

/// The notice that the queue has run out, with the last track's title
/// written as the standard library's `{:?}` writes it.
pub open spec fn farewell(last_title: Seq<char>) -> EmbedView {
    farewell_with(debug_text(last_title))
}

/// Builds the notice that the queue has run out around a title that is
/// written out already.
pub fn farewell_notice(written_title: &str) -> (e: Embed)
    ensures
        e@ == farewell_with(written_title@),
{
    let e = Embed {
        title: Some(String::from_str("Queue has Ended")),
        url: None,
        description: Some(
            wrap(
                "Last song played: **",
                written_title,
                "**\nTo continue listening, play another song!",
            ),
        ),
        colour: gold(),
        fields: Vec::new(),
        thumbnail: None,
        footer: None,
    };
    assert(e@.fields =~= Seq::<FieldView>::empty());
    e
}

/// Builds the notice that the queue has run out after the track titled
/// `last_title`.
fn make_farewell(last_title: &str) -> (e: Embed)
    ensures
        e@ == farewell(last_title@),
{
    let written = debug_string(last_title);
    farewell_notice(written.as_str())
}

/// Whether enough is known to plan for the end of a track: of the track
/// that ended its title, where the queue has run out or the connection is
/// gone; else all that an announcement shows of the track at the head of
/// the queue. An event that does not name exactly one track asks nothing.
pub open spec fn track_end_known(
    ended: Seq<TrackInfoView>,
    connected: bool,
    queue: Seq<TrackInfoView>,
) -> bool {
    ended.len() == 1 ==> if connected && queue.len() > 0 {
        queue[0].presentable()
    } else {
        ended[0].title is Some
    }
}

/// Whether an event asks for anything: it does where it names exactly one
/// track.
pub open spec fn concerns_one_track(ended: Seq<TrackInfoView>) -> bool {
    ended.len() == 1
}

/// Tells whether the event asks for anything. Where it does not, the plan
/// is to pass it over whatever the session holds, so the session need not
/// be read.
pub fn names_one_track(ended: &Vec<TrackInfo>) -> (b: bool)
    ensures
        b == concerns_one_track(infos_view(ended@)),
{
    ended.len() == 1
}

/// The plan for the end of a track. An event that does not name exactly one
/// track is passed over. Without a voice connection the bot says farewell
/// and shows itself idle; with an empty queue it says farewell and leaves
/// the channel; else it announces the track at the head of the queue.
/// Whatever happened, the bot goes on to watch for the end of tracks.
pub open spec fn track_end_plan(
    ended: Seq<TrackInfoView>,
    connected: bool,
    queue: Seq<TrackInfoView>,
) -> TrackEndPlanView
    recommends
        track_end_known(ended, connected, queue),
{
    if !concerns_one_track(ended) {
        TrackEndPlanView { notice: None, after: Action::Nothing, keep_watching: true }
    } else if !connected {
        TrackEndPlanView {
            notice: Some(farewell(ended[0].title->0)),
            after: Action::GoIdle,
            keep_watching: true,
        }
    } else if queue.len() == 0 {
        TrackEndPlanView {
            notice: Some(farewell(ended[0].title->0)),
            after: Action::LeaveChannel,
            keep_watching: true,
        }
    } else {
        TrackEndPlanView {
            notice: Some(announcement(queue[0], None)),
            after: Action::Nothing,
            keep_watching: true,
        }
    }
}

/// Tells whether `track_ended` may be called on these values.
pub fn knows_track_end(
    ended: &Vec<TrackInfo>,
    connected: bool,
    queue: &Vec<TrackInfo>,
) -> (b: bool)
    ensures
        b == track_end_known(infos_view(ended@), connected, infos_view(queue@)),
{
    if !names_one_track(ended) {
        true
    } else if connected && queue.len() > 0 {
        queue[0].is_presentable()
    } else {
        ended[0].title.is_some()
    }
}

/// Plans for the end of a track. `ended` holds the tracks that the event
/// names, `connected` tells whether the guild still has a voice connection,
/// and `queue` holds the tracks that are queued now, the current one first.
pub fn track_ended(
    ended: &Vec<TrackInfo>,
    connected: bool,
    queue: &Vec<TrackInfo>,
) -> (plan: TrackEndPlan)
    requires
        track_end_known(infos_view(ended@), connected, infos_view(queue@)),
    ensures
        plan@ == track_end_plan(infos_view(ended@), connected, infos_view(queue@)),
{
    if !names_one_track(ended) {
        TrackEndPlan { notice: None, after: Action::Nothing, keep_watching: true }
    } else if !connected {
        let title: &String = ended[0].title.as_ref().unwrap();
        TrackEndPlan {
            notice: Some(make_farewell(title.as_str())),
            after: Action::GoIdle,
            keep_watching: true,
        }
    } else if queue.len() == 0 {
        let title: &String = ended[0].title.as_ref().unwrap();
        TrackEndPlan {
            notice: Some(make_farewell(title.as_str())),
            after: Action::LeaveChannel,
            keep_watching: true,
        }
    } else {
        TrackEndPlan {
            notice: Some(announce(&queue[0], None)),
            after: Action::Nothing,
            keep_watching: true,
        }
    }
}

} // verus!

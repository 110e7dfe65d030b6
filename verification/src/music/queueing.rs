//! Commands that fill, show and thin the queue.

use crate::colour::{gold, gold_rgb};
use crate::music::{
    Action, Outcome, OutcomeView, announce, announcement, invoked_by, make_invoked_by, only_say,
    outcome_tell,
};
use crate::reply::{Embed, EmbedView, Field, FieldView, Reply, ReplyView};
use crate::text::{
    decimal_digits, has_prefix, pretty_debug_string, pretty_debug_text, push_decimal, starts_with,
    text_view, wrap,
};
use crate::track::{
    Invoker, InvokerView, NowPlaying, NowPlayingView, TrackInfo, TrackInfoView, current_view,
    infos_view,
};
use crate::utilities::{duration_debug_string, duration_debug_text, whole_seconds};
use vstd::prelude::*;
use vstd::string::StringExecFns;

verus! {

/// What the `play` command does next.
#[derive(Debug, Clone, Copy, PartialEq, Eq)]
pub enum PlayStep {
    /// Run the `join` command, then ask again.
    JoinFirst,
    /// Joining did not bring a connection: end the command.
    GiveUp,
    /// Nothing was asked for: run the `resume` command in its place.
    Resume,
    /// Store the message's first attachment and queue it.
    QueueAttachment,
    /// Queue what the search text links to.
    QueueLink,
    /// Queue the first hit for the search text.
    QueueSearch,
}

/// The next step of `play`. Without a connection the bot joins first, once.
/// With one, an attachment goes before the text; an empty text asks to
/// resume; a text that begins with `http` is a link, any other a search.
pub open spec fn play_step(
    connected: bool,
    join_tried: bool,
    attachments: nat,
    search: Seq<char>,
) -> PlayStep {
    if !connected {
        if join_tried {
            PlayStep::GiveUp
        } else {
            PlayStep::JoinFirst
        }
    } else if attachments > 0 {
        PlayStep::QueueAttachment
    } else if search.len() == 0 {
        PlayStep::Resume
    } else if has_prefix(search, "http"@) {
        PlayStep::QueueLink
    } else {
        PlayStep::QueueSearch
    }
}

/// Decides the next step of the `play` command. `connected` tells whether
/// the guild has a voice connection now, `join_tried` whether this command
/// has run `join` already, `attachments` how many files the message
/// carries, `search` the text after the command's name.
pub fn play(
    connected: bool,
    join_tried: bool,
    attachments: usize,
    search: &str,
) -> (step: PlayStep)
    ensures
        step == play_step(connected, join_tried, attachments as nat, search@),
{
    if !connected {
        if join_tried {
            PlayStep::GiveUp
        } else {
            PlayStep::JoinFirst
        }
    } else if attachments > 0 {
        PlayStep::QueueAttachment
    } else if search.is_empty() {
        PlayStep::Resume
    } else if starts_with(search, "http") {
        PlayStep::QueueLink
    } else {
        PlayStep::QueueSearch
    }
}

/// The description of a stored attachment: the probed one, but with the
/// message's link as address, the member's name as author and the file's
/// name as title.
pub open spec fn attachment_view(
    probed: TrackInfoView,
    link: Seq<char>,
    author: Seq<char>,
    file_name: Seq<char>,
) -> TrackInfoView {
    TrackInfoView {
        title: Some(file_name),
        source_url: Some(link),
        channel: Some(author),
        duration: probed.duration,
        thumbnail: probed.thumbnail,
    }
}

/// Describes a stored attachment for the replies.
pub fn attachment_info(
    probed: TrackInfo,
    link: String,
    author: String,
    file_name: String,
) -> (info: TrackInfo)
    ensures
        info@ == attachment_view(probed@, link@, author@, file_name@),
{
    TrackInfo {
        title: Some(file_name),
        source_url: Some(link),
        channel: Some(author),
        duration: probed.duration,
        thumbnail: probed.thumbnail,
    }
}

/// What `play` comes to once the track is queued. With nothing at the head
/// of the queue the bot shows itself online and announces the track with
/// the member who asked for it; else it says what was queued, and by whom
/// it was published.
pub open spec fn play_outcome(idle: bool, info: TrackInfoView, requester: u64) -> OutcomeView
    recommends
        play_can_report(idle, info),
{
    if idle {
        OutcomeView {
            action: Action::GoOnline,
            reply: Some(ReplyView::Embed(announcement(info, Some(requester)))),
        }
    } else {
        OutcomeView {
            action: Action::Nothing,
            reply: Some(
                ReplyView::Say(
                    "Enqueued **"@ + info.title->0 + "** by **"@ + info.channel->0 + "**"@,
                ),
            ),
        }
    }
}

/// Whether enough is known of a queued track for the report of `play`: all
/// that an announcement shows where nothing plays, else title and author.
pub open spec fn play_can_report(idle: bool, info: TrackInfoView) -> bool {
    if idle {
        info.presentable()
    } else {
        info.title is Some && info.channel is Some
    }
}

/// Tells whether `played` may be called on these values.
pub fn can_report_play(idle: bool, info: &TrackInfo) -> (b: bool)
    ensures
        b == play_can_report(idle, info@),
{
    if idle {
        info.is_presentable()
    } else {
        info.title.is_some() && info.channel.is_some()
    }
}

/// Reports on a track that `play` has queued. `idle` tells whether the
/// queue shows no current track, `requester` is the id of the member who
/// called the command.
pub fn played(idle: bool, info: &TrackInfo, requester: u64) -> (out: Outcome)
    requires
        play_can_report(idle, info@),
    ensures
        out@ == play_outcome(idle, info@, requester),
{
    if idle {
        Outcome {
            action: Action::GoOnline,
            reply: Some(Reply::Embed(announce(info, Some(requester)))),
        }
    } else {
        let mut text = String::from_str("Enqueued **");
        text.append(info.title.as_ref().unwrap().as_str());
        text.append("** by **");
        text.append(info.channel.as_ref().unwrap().as_str());
        text.append("**");
        Outcome { action: Action::Nothing, reply: Some(Reply::Say(text)) }
    }
}

/// The line of a waiting track in the queue's listing: its place in bold,
/// then its title as a link, then a line break.
pub open spec fn queue_line(place: nat, info: TrackInfoView) -> Seq<char>
    recommends
        info.listable(),
{
    "**"@ + decimal_digits(place) + ")** ["@ + info.title->0 + "]("@ + info.source_url->0
        + ")\n"@
}

/// The listing of the tracks that wait: one line for each track behind the
/// first, counted from one, in the queue's order.
pub open spec fn up_next(tracks: Seq<TrackInfoView>) -> Seq<char>
    decreases tracks.len(),
{
    if tracks.len() <= 1 {
        Seq::empty()
    } else {
        up_next(tracks.drop_last()) + queue_line((tracks.len() - 1) as nat, tracks.last())
    }
}

/// The line of the current track in the queue's listing, from the seconds
/// it has played and its length as it was written out: its title as a
/// link, then the seconds and the length between square brackets.
pub open spec fn now_playing_line_with(
    info: TrackInfoView,
    played: nat,
    written_length: Seq<char>,
) -> Seq<char>
    recommends
        info.listable(),
{
    "["@ + info.title->0 + "]("@ + info.source_url->0 + ") ["@ + decimal_digits(played) + ":"@
        + written_length + "]"@
}

/// The line of the current track in the queue's listing, with the whole
/// seconds it has played and its length as the standard library's `{:#?}`
/// writes it.
pub open spec fn now_playing_line(current: NowPlayingView) -> Seq<char>
    recommends
        current.info.listable(),
        current.info.duration is Some,
{
    now_playing_line_with(
        current.info,
        whole_seconds(current.play_time) as nat,
        duration_debug_text(current.info.duration->0),
    )
}

/// The gold embed that shows the queue: the current track, then the listing
/// of those that wait.
pub open spec fn queue_embed(current: NowPlayingView, tracks: Seq<TrackInfoView>) -> EmbedView {
    EmbedView {
        title: None,
        url: None,
        description: None,
        colour: gold_rgb(),
        fields: seq![
            FieldView { name: "• Now Playing"@, value: now_playing_line(current), inline: false },
            FieldView { name: "• Up Next"@, value: up_next(tracks), inline: false },
        ],
        thumbnail: None,
        footer: None,
    }
}

/// Whether title and address are known of each track behind the first.
pub open spec fn waiting_listable(tracks: Seq<TrackInfoView>) -> bool {
    forall|i: int| 1 <= i < tracks.len() ==> (#[trigger] tracks[i]).listable()
}

/// Whether enough is known to show the queue: title, address and length of
/// the current track, title and address of each track behind the first.
/// Nothing is asked where there is nothing to show.
pub open spec fn queue_known(
    connected: bool,
    current: Option<NowPlayingView>,
    tracks: Seq<TrackInfoView>,
) -> bool {
    connected && tracks.len() > 0 && current is Some ==> {
        &&& current->0.info.listable()
        &&& current->0.info.duration is Some
        &&& waiting_listable(tracks)
    }
}

/// The reply of the `queue` command. Without a connection the bot says that
/// it plays nothing; with an empty queue or no current track, that the
/// queue holds nothing; else it shows the queue.
pub open spec fn queue_reply(
    connected: bool,
    current: Option<NowPlayingView>,
    tracks: Seq<TrackInfoView>,
) -> ReplyView
    recommends
        queue_known(connected, current, tracks),
{
    if !connected {
        ReplyView::Say("Not playing any music right now"@)
    } else if tracks.len() == 0 || current is None {
        ReplyView::Say("Nothing in the queue"@)
    } else {
        ReplyView::Embed(queue_embed(current->0, tracks))
    }
}

/// Writes the listing of the tracks that wait.
fn list_up_next(tracks: &Vec<TrackInfo>) -> (s: String)
    requires
        waiting_listable(infos_view(tracks@)),
    ensures
        s@ == up_next(infos_view(tracks@)),
{
    let ghost views = infos_view(tracks@);
    let mut s = String::new();
    if tracks.len() < 2 {
        return s;
    }
    let mut i: usize = 1;
    while i < tracks.len()
        invariant
            1 <= i <= tracks.len(),
            views == infos_view(tracks@),
            waiting_listable(views),
            s@ == up_next(views.take(i as int)),
        decreases tracks.len() - i,
    {
        let info: &TrackInfo = &tracks[i];
        assert(info@ == views[i as int]);
        let ghost before = s@;
        s.append("**");
        push_decimal(&mut s, i as u128);
        s.append(")** [");
        s.append(info.title.as_ref().unwrap().as_str());
        s.append("](");
        s.append(info.source_url.as_ref().unwrap().as_str());
        s.append(")\n");
        proof {
            let next = views.take(i + 1);
            assert(next.drop_last() =~= views.take(i as int));
            assert(next.last() == info@);
            assert(s@ =~= before + queue_line(i as nat, info@));
        }
        i += 1;
    }
    assert(views.take(i as int) =~= views);
    s
}

/// Writes the line of the current track from the seconds it has played and
/// its length as it was written out.
pub fn write_now_playing(info: &TrackInfo, played: u64, written_length: &str) -> (s: String)
    requires
        info@.listable(),
    ensures
        s@ == now_playing_line_with(info@, played as nat, written_length@),
{
    let mut s = String::from_str("[");
    s.append(info.title.as_ref().unwrap().as_str());
    s.append("](");
    s.append(info.source_url.as_ref().unwrap().as_str());
    s.append(") [");
    push_decimal(&mut s, played as u128);
    s.append(":");
    s.append(written_length);
    s.append("]");
    assert(s@ =~= now_playing_line_with(info@, played as nat, written_length@));
    s
}

/// Writes the line of the current track.
fn write_current(current: &NowPlaying) -> (s: String)
    requires
        current.info@.listable(),
        current.info.duration is Some,
    ensures
        s@ == now_playing_line(current@),
{
    let written = duration_debug_string(current.info.duration.as_ref().unwrap());
    write_now_playing(&current.info, current.play_time.as_secs(), written.as_str())
}

/// Tells whether title and address are known of each track behind the
/// first.
fn all_waiting_listable(tracks: &Vec<TrackInfo>) -> (b: bool)
    ensures
        b == waiting_listable(infos_view(tracks@)),
{
    let ghost views = infos_view(tracks@);
    let mut i: usize = 1;
    while i < tracks.len()
        invariant
            1 <= i,
            views == infos_view(tracks@),
            forall|j: int| 1 <= j < i && j < views.len() ==> (#[trigger] views[j]).listable(),
        decreases tracks.len() - i,
    {
        if !tracks[i].is_listable() {
            assert(!views[i as int].listable());
            return false;
        }
        assert(views[i as int] == tracks@[i as int]@);
        i += 1;
    }
    true
}

/// Tells whether `queue` may be called on these values.
pub fn knows_queue(
    connected: bool,
    current: &Option<NowPlaying>,
    tracks: &Vec<TrackInfo>,
) -> (b: bool)
    ensures
        b == queue_known(connected, current_view(*current), infos_view(tracks@)),
{
    if !connected || tracks.len() == 0 {
        return true;
    }
    match current {
        None => true,
        Some(c) => {
            c.info.is_listable() && c.info.duration.is_some() && all_waiting_listable(tracks)
        },
    }
}

/// Decides the reply of the `queue` command. `connected` tells whether the
/// guild has a voice connection, `current` is the track at the head of the
/// queue with its state, and `tracks` holds all that are queued, the
/// current one first.
pub fn queue(
    connected: bool,
    current: &Option<NowPlaying>,
    tracks: &Vec<TrackInfo>,
) -> (reply: Reply)
    requires
        queue_known(connected, current_view(*current), infos_view(tracks@)),
    ensures
        reply@ == queue_reply(connected, current_view(*current), infos_view(tracks@)),
{
    if !connected {
        return Reply::Say(String::from_str("Not playing any music right now"));
    }
    if tracks.len() == 0 {
        return Reply::Say(String::from_str("Nothing in the queue"));
    }
    match current {
        None => Reply::Say(String::from_str("Nothing in the queue")),
        Some(c) => {
            let mut fields: Vec<Field> = Vec::new();
            fields.push(
                Field {
                    name: String::from_str("• Now Playing"),
                    value: write_current(c),
                    inline: false,
                },
            );
            fields.push(
                Field {
                    name: String::from_str("• Up Next"),
                    value: list_up_next(tracks),
                    inline: false,
                },
            );
            let e = Embed {
                title: None,
                url: None,
                description: None,
                colour: gold(),
                fields,
                thumbnail: None,
                footer: None,
            };
            assert(e@.fields =~= queue_embed(c@, infos_view(tracks@)).fields);
            Reply::Embed(e)
        },
    }
}

/// The description of an optional track, by its characters.
pub open spec fn info_view(info: Option<TrackInfo>) -> Option<TrackInfoView> {
    match info {
        Some(i) => Some(i@),
        None => None,
    }
}

/// The first half of the `remove` command. An argument that is no index is
/// turned down; so is the command without a connection or with an empty
/// queue. Else the track at the index is to be taken out.
pub open spec fn remove_outcome(
    index: Option<usize>,
    connected: bool,
    waiting: nat,
) -> OutcomeView {
    match index {
        None => only_say("Please enter an index (e.g. `1`"@),
        Some(i) => if !connected {
            only_say("Nothing playing currently"@)
        } else if waiting < 1 {
            only_say("Nothing in the queue"@)
        } else {
            OutcomeView { action: Action::Dequeue(i), reply: None }
        },
    }
}

/// Decides the first half of the `remove` command. `index` is the
/// command's argument read as an index, `None` where it was none;
/// `connected` tells whether the guild has a voice connection; `waiting` is
/// the queue's length. Where the outcome is to take a track out, `removed`
/// says what to tell.
pub fn remove(index: Option<usize>, connected: bool, waiting: usize) -> (out: Outcome)
    ensures
        out@ == remove_outcome(index, connected, waiting as nat),
{
    match index {
        None => outcome_tell("Please enter an index (e.g. `1`"),
        Some(i) => {
            if !connected {
                outcome_tell("Nothing playing currently")
            } else if waiting < 1 {
                outcome_tell("Nothing in the queue")
            } else {
                Outcome { action: Action::Dequeue(i), reply: None }
            }
        },
    }
}

/// The second half of the `remove` command, around the title of the track
/// as it was written out. Where a track was taken out, a gold embed names
/// it and the member who asked; where the queue had no track at the index,
/// the bot says so.
pub open spec fn removed_reply_with(
    index: usize,
    written_title: Option<Seq<char>>,
    invoker: InvokerView,
) -> ReplyView {
    match written_title {
        Some(written) => ReplyView::Embed(
            EmbedView {
                title: Some("Removed Song from Queue"@),
                url: None,
                description: Some("Removed **"@ + written + "** from the queue ("@),
                colour: gold_rgb(),
                fields: Seq::empty(),
                thumbnail: None,
                footer: Some(invoked_by(invoker)),
            },
        ),
        None => ReplyView::Say("There is no song at index "@ + decimal_digits(index as nat)),
    }
}

/// The title of a track that was taken out, known or not, as the standard
/// library's `{:#?}` writes it; nothing where no track was taken out.
pub open spec fn title_as_written(taken: Option<TrackInfoView>) -> Option<Seq<char>> {
    match taken {
        Some(info) => Some(pretty_debug_text(info.title)),
        None => None,
    }
}

/// The second half of the `remove` command: the reply around the optional
/// title of the track that was taken out, written as the standard library's
/// `{:#?}` writes it.
pub open spec fn removed_reply(
    index: usize,
    taken: Option<TrackInfoView>,
    invoker: InvokerView,
) -> ReplyView {
    removed_reply_with(index, title_as_written(taken), invoker)
}

/// Decides the second half of the `remove` command from a title that is
/// written out already: `written_title` is that of the track that left the
/// queue, `None` where the queue had none at `index`.
pub fn removed_with(
    index: usize,
    written_title: &Option<String>,
    invoker: &Invoker,
) -> (reply: Reply)
    ensures
        reply@ == removed_reply_with(index, text_view(*written_title), invoker@),
{
    match written_title {
        Some(written) => {
            let e = Embed {
                title: Some(String::from_str("Removed Song from Queue")),
                url: None,
                description: Some(wrap("Removed **", written.as_str(), "** from the queue (")),
                colour: gold(),
                fields: Vec::new(),
                thumbnail: None,
                footer: Some(make_invoked_by(invoker)),
            };
            assert(e@.fields =~= Seq::<FieldView>::empty());
            Reply::Embed(e)
        },
        None => {
            let mut text = String::from_str("There is no song at index ");
            push_decimal(&mut text, index as u128);
            Reply::Say(text)
        },
    }
}

/// Decides the second half of the `remove` command. `taken` describes the
/// track that left the queue, `None` where the queue had none at `index`.
pub fn removed(index: usize, taken: &Option<TrackInfo>, invoker: &Invoker) -> (reply: Reply)
    ensures
        reply@ == removed_reply(index, info_view(*taken), invoker@),
{
    let written = match taken {
        Some(info) => Some(pretty_debug_string(&info.title)),
        None => None,
    };
    removed_with(index, &written, invoker)
}

} // verus!

//! What the commands read of a track and of the member who called them.

use crate::text::text_view;
use std::time::Duration;
use vstd::prelude::*;

verus! {

/// Whether a track is being played.
#[derive(Debug, Clone, Copy, PartialEq, Eq)]
pub enum PlayMode {
    /// The track is playing.
    Play,
    /// The track is paused and may be resumed.
    Pause,
    /// The track was stopped by hand and cannot start again.
    Stop,
    /// The track came to its end.
    End,
}

/// How often a track still repeats.
#[derive(Debug, Clone, Copy, PartialEq, Eq)]
pub enum LoopState {
    /// It repeats until told otherwise.
    Infinite,
    /// It repeats this many more times.
    Finite(usize),
}

/// The descriptive fields of a track. Each may be unknown.
#[derive(Debug, PartialEq, Eq)]
pub struct TrackInfo {
    /// The track's title.
    pub title: Option<String>,
    /// The address the track was taken from.
    pub source_url: Option<String>,
    /// The channel or author that published the track.
    pub channel: Option<String>,
    /// The track's length.
    pub duration: Option<Duration>,
    /// The address of a small picture for the track.
    pub thumbnail: Option<String>,
}

/// A `TrackInfo` by its characters.
pub struct TrackInfoView {
    pub title: Option<Seq<char>>,
    pub source_url: Option<Seq<char>>,
    pub channel: Option<Seq<char>>,
    pub duration: Option<Duration>,
    pub thumbnail: Option<Seq<char>>,
}

impl View for TrackInfo {
    type V = TrackInfoView;

    open spec fn view(&self) -> TrackInfoView {
        TrackInfoView {
            title: text_view(self.title),
            source_url: text_view(self.source_url),
            channel: text_view(self.channel),
            duration: self.duration,
            thumbnail: text_view(self.thumbnail),
        }
    }
}

impl TrackInfoView {
    /// Whether the track can stand in a list: its title and address are
    /// known.
    pub open spec fn listable(self) -> bool {
        self.title is Some && self.source_url is Some
    }

    /// Whether the track can be shown with its author: title, address and
    /// author are known.
    pub open spec fn credited(self) -> bool {
        self.listable() && self.channel is Some
    }

    /// Whether the track can be announced: title, address, author and length
    /// are known.
    pub open spec fn presentable(self) -> bool {
        self.credited() && self.duration is Some
    }
}

impl TrackInfo {
    /// Tells whether the title and the address are known.
    pub fn is_listable(&self) -> (b: bool)
        ensures
            b == self@.listable(),
    {
        self.title.is_some() && self.source_url.is_some()
    }

    /// Tells whether title, address and author are known.
    pub fn is_credited(&self) -> (b: bool)
        ensures
            b == self@.credited(),
    {
        self.is_listable() && self.channel.is_some()
    }

    /// Tells whether title, address, author and length are known.
    pub fn is_presentable(&self) -> (b: bool)
        ensures
            b == self@.presentable(),
    {
        self.is_credited() && self.duration.is_some()
    }
}

/// The descriptions of a list of tracks, each by its characters.
pub open spec fn infos_view(tracks: Seq<TrackInfo>) -> Seq<TrackInfoView> {
    tracks.map_values(|t: TrackInfo| t@)
}

/// The track at the head of the queue, with its state.
#[derive(Debug, PartialEq, Eq)]
pub struct NowPlaying {
    pub info: TrackInfo,
    pub mode: PlayMode,
    pub loops: LoopState,
    /// For how long the track has been played in all.
    pub play_time: Duration,
}

/// A `NowPlaying` with its description by its characters.
pub struct NowPlayingView {
    pub info: TrackInfoView,
    pub mode: PlayMode,
    pub loops: LoopState,
    pub play_time: Duration,
}

impl View for NowPlaying {
    type V = NowPlayingView;

    open spec fn view(&self) -> NowPlayingView {
        NowPlayingView {
            info: self.info@,
            mode: self.mode,
            loops: self.loops,
            play_time: self.play_time,
        }
    }
}

/// The current track of an optional current track.
pub open spec fn current_view(current: Option<NowPlaying>) -> Option<NowPlayingView> {
    match current {
        Some(c) => Some(c@),
        None => None,
    }
}

/// The member who called a command.
#[derive(Debug, PartialEq, Eq)]
pub struct Invoker {
    pub id: u64,
    pub name: String,
    /// The address of the member's picture.
    pub face: String,
}

/// An `Invoker` by its characters.
pub struct InvokerView {
    pub id: u64,
    pub name: Seq<char>,
    pub face: Seq<char>,
}

impl View for Invoker {
    type V = InvokerView;

    open spec fn view(&self) -> InvokerView {
        InvokerView { id: self.id, name: self.name@, face: self.face@ }
    }
}

} // verus!

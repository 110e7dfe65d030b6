//! The decisions of a voice-channel music bot, apart from the chat and the
//! voice session.
//!
//! A command of the bot reads a few things (whether the guild has a voice
//! connection, what plays, what waits), comes to an operation and a
//! message, and carries them out. This crate holds the middle part. Each
//! command is a function from plain values to an [`music::Outcome`] or a
//! [`reply::Reply`], and its contract says which outcome every input gives,
//! down to the characters of the message. Reading the session and sending
//! the message are left to the caller.
//!
//! - [`music`]: the commands `join`, `leave`, `play`, `queue`, `remove`,
//!   `pause`, `resume`, `skip`, `stop`, `loop` and `volume`, and what
//!   follows the end of a track.
//! - [`utility`]: the latency check.
//! - [`utilities`]: a random colour, a duration in words, a number with its
//!   ordinal ending.
//! - [`reply`], [`track`]: the messages that go out and the descriptions
//!   that come in, each with its view by characters.
//! - [`text`]: decimal numerals, joined lists, prefixes and comparison,
//!   proved against their definitions.
//! - [`colour`], [`mention`]: the colours and mentions of the chat library.
//!
//! A few items are believed, not proved: the colours and mentions of
//! `serenity`, the draw of `rand`, `Duration::as_secs`, and what the
//! standard library's `{:?}` and `{:#?}` write. Each is a declaration by
//! itself with its claim in its doc comment. Where a reply is built around
//! a text that one of them writes, a public function builds the same reply
//! around a text that is handed in (`farewell_notice`, `write_now_playing`,
//! `removed_with`, `announce_with`, `format_seconds`).

pub mod colour;
pub mod mention;
pub mod music;
pub mod reply;
pub mod text;
pub mod track;
pub mod utilities;
pub mod utility;

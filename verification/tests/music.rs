use music_bot::music::notifier::{
    farewell_notice, knows_track_end, names_one_track, track_ended,
};
use music_bot::music::playback::{
    knows_pause, knows_resume, loop_command, pause, resume, skip, stop, volume,
};
use music_bot::music::queueing::{
    attachment_info, can_report_play, knows_queue, play, played, queue, remove, removed,
    removed_with, write_now_playing, PlayStep,
};
use music_bot::music::session::{join, joined, leave, left};
use music_bot::music::{announce, announce_with, Action, Outcome};
use music_bot::reply::{Embed, Field, Footer, Reply};
use music_bot::track::{Invoker, LoopState, NowPlaying, PlayMode, TrackInfo};
use music_bot::utility::{ping, ping_report};
use serenity::utils::Colour;
use std::time::Duration;

fn song(n: u64) -> TrackInfo {
    TrackInfo {
        title: Some(format!("Song {}", n)),
        source_url: Some(format!("https://example.org/{}", n)),
        channel: Some(format!("Band {}", n)),
        duration: Some(Duration::from_secs(60 * n + 5)),
        thumbnail: Some(format!("https://example.org/{}.png", n)),
    }
}

fn untitled() -> TrackInfo {
    TrackInfo { title: None, source_url: None, channel: None, duration: None, thumbnail: None }
}

fn current(n: u64, mode: PlayMode) -> NowPlaying {
    NowPlaying {
        info: song(n),
        mode,
        loops: LoopState::Finite(0),
        play_time: Duration::from_millis(12_700),
    }
}

fn member() -> Invoker {
    Invoker {
        id: 7,
        name: "ada".to_string(),
        face: "https://example.org/ada.png".to_string(),
    }
}

fn say(action: Action, text: &str) -> Outcome {
    Outcome { action, reply: Some(Reply::Say(text.to_string())) }
}

fn field(name: &str, value: &str, inline: bool) -> Field {
    Field { name: name.to_string(), value: value.to_string(), inline }
}

fn gold_note(description: &str) -> Embed {
    Embed {
        title: None,
        url: None,
        description: Some(description.to_string()),
        colour: Colour::GOLD,
        fields: vec![],
        thumbnail: None,
        footer: None,
    }
}

#[test]
fn play_joins_first_without_a_connection() {
    assert_eq!(play(false, false, 0, "a song"), PlayStep::JoinFirst);
    assert_eq!(play(false, false, 2, ""), PlayStep::JoinFirst);
    assert_eq!(play(false, true, 0, "a song"), PlayStep::GiveUp);
    assert_eq!(play(false, true, 1, "http://example.org"), PlayStep::GiveUp);
}

#[test]
fn play_picks_the_source() {
    assert_eq!(play(true, false, 1, "a song"), PlayStep::QueueAttachment);
    assert_eq!(play(true, true, 3, ""), PlayStep::QueueAttachment);
    assert_eq!(play(true, false, 0, ""), PlayStep::Resume);
    assert_eq!(play(true, false, 0, "http://example.org/x"), PlayStep::QueueLink);
    assert_eq!(play(true, false, 0, "https://example.org/x"), PlayStep::QueueLink);
    assert_eq!(play(true, false, 0, "http"), PlayStep::QueueLink);
    assert_eq!(play(true, false, 0, "htt"), PlayStep::QueueSearch);
    assert_eq!(play(true, false, 0, "a song about http"), PlayStep::QueueSearch);
    assert_eq!(play(true, false, 0, " "), PlayStep::QueueSearch);
}

#[test]
fn attachment_is_described_by_the_message() {
    let probed = TrackInfo {
        title: Some("tagged".to_string()),
        source_url: None,
        channel: None,
        duration: Some(Duration::from_secs(9)),
        thumbnail: None,
    };
    let info = attachment_info(
        probed,
        "https://discord.com/channels/1/2/3".to_string(),
        "ada".to_string(),
        "tune.mp3".to_string(),
    );
    assert_eq!(
        info,
        TrackInfo {
            title: Some("tune.mp3".to_string()),
            source_url: Some("https://discord.com/channels/1/2/3".to_string()),
            channel: Some("ada".to_string()),
            duration: Some(Duration::from_secs(9)),
            thumbnail: None,
        }
    );
}

#[test]
fn announcement_of_a_requested_track() {
    let embed = announce(&song(2), Some(7));
    assert_eq!(
        embed,
        Embed {
            title: Some("**Now playing**".to_string()),
            url: Some("https://example.org/2".to_string()),
            description: Some("```\nSong 2\n```".to_string()),
            colour: Colour::DARK_GREEN,
            fields: vec![
                field("• Duration", "2 minutes, 5 seconds", true),
                field("• Requested by", "<@7>", true),
                field("• Author", "Band 2", true),
                field("• URL", "[Click](https://example.org/2)", true),
            ],
            thumbnail: Some("https://example.org/2.png".to_string()),
            footer: None,
        }
    );
    assert_eq!(embed.colour.tuple(), (31, 139, 76));
}

#[test]
fn announcement_without_requester_or_picture() {
    let mut info = song(61);
    info.thumbnail = None;
    let embed = announce(&info, None);
    assert_eq!(
        embed.fields,
        vec![
            field("• Duration", "1 hours, 1 minutes, 5 seconds", true),
            field("• Author", "Band 61", true),
            field("• URL", "[Click](https://example.org/61)", true),
        ]
    );
    assert_eq!(embed.thumbnail, None);
    assert_eq!(embed.footer, None);
}

#[test]
fn played_announces_when_nothing_was_current() {
    assert!(can_report_play(true, &song(1)));
    let out = played(true, &song(1), u64::MAX);
    assert_eq!(out.action, Action::GoOnline);
    assert_eq!(out.reply, Some(Reply::Embed(announce(&song(1), Some(u64::MAX)))));
    match out.reply {
        Some(Reply::Embed(embed)) => {
            assert_eq!(embed.fields[1], field("• Requested by", "<@18446744073709551615>", true))
        },
        other => panic!("no embed: {:?}", other),
    }
}

#[test]
fn played_says_what_was_queued() {
    let mut info = untitled();
    assert!(!can_report_play(false, &info));
    info.title = Some("Song".to_string());
    assert!(!can_report_play(false, &info));
    info.channel = Some("Band".to_string());
    assert!(can_report_play(false, &info));
    assert!(!can_report_play(true, &info));
    assert_eq!(played(false, &info, 7), say(Action::Nothing, "Enqueued **Song** by **Band**"));
}

#[test]
fn track_end_of_another_event_is_passed_over() {
    let plan = track_ended(&vec![], true, &vec![song(1)]);
    assert_eq!(plan.notice, None);
    assert_eq!(plan.after, Action::Nothing);
    assert!(knows_track_end(&vec![untitled(), untitled()], true, &vec![untitled()]));
    let plan = track_ended(&vec![untitled(), untitled()], true, &vec![untitled()]);
    assert_eq!(plan.notice, None);
    assert_eq!(plan.after, Action::Nothing);
}

#[test]
fn track_end_without_connection_goes_idle() {
    let plan = track_ended(&vec![song(3)], false, &vec![song(4)]);
    assert_eq!(
        plan.notice,
        Some(Embed {
            title: Some("Queue has Ended".to_string()),
            url: None,
            description: Some(
                "Last song played: **\"Song 3\"**\nTo continue listening, play another song!"
                    .to_string()
            ),
            colour: Colour::GOLD,
            fields: vec![],
            thumbnail: None,
            footer: None,
        })
    );
    assert_eq!(plan.after, Action::GoIdle);
}

#[test]
fn track_end_with_empty_queue_leaves() {
    let mut last = untitled();
    last.title = Some("a \"quoted\"\ttitle".to_string());
    assert!(knows_track_end(&vec![untitled()], false, &vec![]) == false);
    assert!(knows_track_end(&vec![song(1)], true, &vec![]));
    let plan = track_ended(&vec![last], true, &vec![]);
    match plan.notice {
        Some(embed) => {
            assert_eq!(
                embed.description,
                Some(
                    "Last song played: **\"a \\\"quoted\\\"\\ttitle\"**\nTo continue listening, play another song!"
                        .to_string()
                )
            );
            assert_eq!(embed.colour.tuple(), (241, 196, 15));
        },
        None => panic!("no notice"),
    }
    assert_eq!(plan.after, Action::LeaveChannel);
}

#[test]
fn track_end_announces_the_next_track() {
    assert!(!knows_track_end(&vec![song(1)], true, &vec![untitled(), song(2)]));
    assert!(knows_track_end(&vec![untitled()], true, &vec![song(2), untitled()]));
    let plan = track_ended(&vec![untitled()], true, &vec![song(2), untitled()]);
    assert_eq!(plan.notice, Some(announce(&song(2), None)));
    assert_eq!(plan.after, Action::Nothing);
}

#[test]
fn queue_without_connection_or_tracks() {
    let playing = Some(current(1, PlayMode::Play));
    assert_eq!(
        queue(false, &playing, &vec![song(1)]),
        Reply::Say("Not playing any music right now".to_string())
    );
    assert_eq!(queue(true, &playing, &vec![]), Reply::Say("Nothing in the queue".to_string()));
    assert_eq!(queue(true, &None, &vec![song(1)]), Reply::Say("Nothing in the queue".to_string()));
    assert_eq!(queue(true, &None, &vec![]), Reply::Say("Nothing in the queue".to_string()));
}

#[test]
fn queue_of_one_track_has_nothing_up_next() {
    let playing = Some(current(1, PlayMode::Play));
    assert_eq!(
        queue(true, &playing, &vec![song(1)]),
        Reply::Embed(Embed {
            title: None,
            url: None,
            description: None,
            colour: Colour::GOLD,
            fields: vec![
                field("• Now Playing", "[Song 1](https://example.org/1) [12:65s]", false),
                field("• Up Next", "", false),
            ],
            thumbnail: None,
            footer: None,
        })
    );
}

#[test]
fn queue_lists_the_waiting_tracks_from_one() {
    let playing = Some(current(1, PlayMode::Pause));
    let mut tracks = vec![untitled()];
    for n in 2..=12 {
        tracks.push(song(n));
    }
    assert!(knows_queue(true, &playing, &tracks));
    let mut expected = String::new();
    for n in 2..=12 {
        expected.push_str(&format!("**{})** [Song {}](https://example.org/{})\n", n - 1, n, n));
    }
    match queue(true, &playing, &tracks) {
        Reply::Embed(embed) => {
            assert_eq!(embed.fields.len(), 2);
            assert_eq!(embed.fields[1], field("• Up Next", &expected, false));
            assert!(expected.starts_with("**1)** [Song 2](https://example.org/2)\n**2)** "));
            assert!(expected.ends_with("**11)** [Song 12](https://example.org/12)\n"));
        },
        other => panic!("no embed: {:?}", other),
    }
}

#[test]
fn queue_shows_a_fraction_in_the_length() {
    let mut playing = current(1, PlayMode::Play);
    playing.info.duration = Some(Duration::from_millis(2_500));
    playing.play_time = Duration::from_secs(0);
    match queue(true, &Some(playing), &vec![song(1), song(2)]) {
        Reply::Embed(embed) => {
            assert_eq!(
                embed.fields[0],
                field("• Now Playing", "[Song 1](https://example.org/1) [0:2.5s]", false)
            );
            assert_eq!(
                embed.fields[1],
                field("• Up Next", "**1)** [Song 2](https://example.org/2)\n", false)
            );
        },
        other => panic!("no embed: {:?}", other),
    }
}

#[test]
fn queue_asks_for_what_it_shows() {
    let playing = Some(current(1, PlayMode::Play));
    assert!(knows_queue(false, &None, &vec![untitled()]));
    assert!(knows_queue(true, &None, &vec![untitled()]));
    assert!(knows_queue(true, &playing, &vec![]));
    assert!(knows_queue(true, &playing, &vec![untitled(), song(2)]));
    assert!(!knows_queue(true, &playing, &vec![song(1), untitled()]));
    assert!(!knows_queue(true, &playing, &vec![song(1), song(2), untitled()]));
    let mut unmeasured = current(1, PlayMode::Play);
    unmeasured.info.duration = None;
    assert!(!knows_queue(true, &Some(unmeasured), &vec![song(1)]));
    let mut nameless = current(1, PlayMode::Play);
    nameless.info.title = None;
    assert!(!knows_queue(true, &Some(nameless), &vec![song(1)]));
}

#[test]
fn remove_turns_down_what_it_cannot_do() {
    assert_eq!(remove(None, true, 3), say(Action::Nothing, "Please enter an index (e.g. `1`"));
    assert_eq!(remove(None, false, 0), say(Action::Nothing, "Please enter an index (e.g. `1`"));
    assert_eq!(remove(Some(1), false, 3), say(Action::Nothing, "Nothing playing currently"));
    assert_eq!(remove(Some(1), true, 0), say(Action::Nothing, "Nothing in the queue"));
}

#[test]
fn remove_takes_the_track_out() {
    assert_eq!(remove(Some(1), true, 1), Outcome { action: Action::Dequeue(1), reply: None });
    assert_eq!(remove(Some(0), true, 5), Outcome { action: Action::Dequeue(0), reply: None });
    assert_eq!(
        remove(Some(usize::MAX), true, 2),
        Outcome { action: Action::Dequeue(usize::MAX), reply: None }
    );
}

#[test]
fn removed_names_the_track_and_the_member() {
    assert_eq!(
        removed(1, &Some(song(5)), &member()),
        Reply::Embed(Embed {
            title: Some("Removed Song from Queue".to_string()),
            url: None,
            description: Some("Removed **Some(\n    \"Song 5\",\n)** from the queue (".to_string()),
            colour: Colour::GOLD,
            fields: vec![],
            thumbnail: None,
            footer: Some(Footer {
                text: "Invoked by ada".to_string(),
                icon_url: "https://example.org/ada.png".to_string(),
            }),
        })
    );
    match removed(1, &Some(untitled()), &member()) {
        Reply::Embed(embed) => {
            assert_eq!(embed.description, Some("Removed **None** from the queue (".to_string()))
        },
        other => panic!("no embed: {:?}", other),
    }
}

#[test]
fn removed_reports_a_missing_index() {
    assert_eq!(
        removed(12, &None, &member()),
        Reply::Say("There is no song at index 12".to_string())
    );
    assert_eq!(removed(0, &None, &member()), Reply::Say("There is no song at index 0".to_string()));
}

#[test]
fn join_needs_the_member_in_a_voice_channel() {
    assert_eq!(
        join(None),
        Outcome {
            action: Action::Nothing,
            reply: Some(Reply::Answer("Not in a voice channel".to_string())),
        }
    );
    assert_eq!(join(Some(42)), Outcome { action: Action::Connect(42), reply: None });
}

#[test]
fn joined_mentions_the_channel() {
    let report = joined(42, true);
    assert_eq!(report.reply, Reply::Say("Joined <#42>".to_string()));
    assert!(report.watch_track_ends);
    let report = joined(u64::MAX, true);
    assert_eq!(report.reply, Reply::Say("Joined <#18446744073709551615>".to_string()));
    let report = joined(42, false);
    assert_eq!(report.reply, Reply::Say("Error joining the channel".to_string()));
    assert!(!report.watch_track_ends);
}

#[test]
fn leave_needs_a_voice_channel() {
    assert_eq!(
        leave(None),
        Outcome {
            action: Action::Nothing,
            reply: Some(Reply::Answer("Not in a voice channel".to_string())),
        }
    );
    assert_eq!(leave(Some(42)), Outcome { action: Action::Disconnect, reply: None });
}

#[test]
fn left_names_the_channel_or_the_failure() {
    assert_eq!(left(42, &None), Reply::Say("Successfully left <#42>".to_string()));
    assert_eq!(left(0, &None), Reply::Say("Successfully left <#0>".to_string()));
    assert_eq!(left(42, &Some("NoCall".to_string())), Reply::Say("Failed: NoCall".to_string()));
}

#[test]
fn pause_without_connection_or_track() {
    assert_eq!(pause(false, &None), say(Action::Nothing, "Not in a voice channel"));
    assert_eq!(
        pause(false, &Some(current(1, PlayMode::Play))),
        say(Action::Nothing, "Not in a voice channel")
    );
    assert_eq!(pause(true, &None), say(Action::Nothing, "Nothing playing currently"));
}

#[test]
fn pause_pauses_what_is_not_paused() {
    assert_eq!(
        pause(true, &Some(current(1, PlayMode::Play))),
        say(Action::Pause, "Paused **Song 1**")
    );
    assert_eq!(
        pause(true, &Some(current(1, PlayMode::Pause))),
        say(Action::Nothing, "Already paused")
    );
    let mut nameless = current(1, PlayMode::Pause);
    nameless.info.title = None;
    assert!(knows_pause(true, &Some(nameless)));
    let mut nameless = current(1, PlayMode::Play);
    nameless.info.title = None;
    assert!(!knows_pause(true, &Some(nameless)));
}

#[test]
fn resume_without_connection_or_track() {
    assert_eq!(resume(false, &None), say(Action::Nothing, "No music to resume"));
    assert_eq!(resume(true, &None), say(Action::Nothing, "Nothing playing currently"));
}

#[test]
fn resume_resumes_what_is_paused() {
    assert_eq!(
        resume(true, &Some(current(3, PlayMode::Pause))),
        say(Action::Resume, "Resumed **Song 3**")
    );
    assert_eq!(
        resume(true, &Some(current(3, PlayMode::Play))),
        Outcome { action: Action::Nothing, reply: None }
    );
    assert_eq!(
        resume(true, &Some(current(3, PlayMode::End))),
        Outcome { action: Action::Nothing, reply: None }
    );
    let mut nameless = current(1, PlayMode::Play);
    nameless.info.title = None;
    assert!(knows_resume(true, &Some(nameless)));
    let mut nameless = current(1, PlayMode::Pause);
    nameless.info.title = None;
    assert!(!knows_resume(true, &Some(nameless)));
}

#[test]
fn skip_drops_the_current_track() {
    assert_eq!(
        skip(false, true, &member()),
        say(Action::Nothing, "Not in a voice channel to play in")
    );
    assert_eq!(
        skip(true, false, &member()),
        say(Action::Nothing, "Not playing any music right now")
    );
    assert_eq!(
        skip(true, true, &member()),
        Outcome {
            action: Action::Skip,
            reply: Some(Reply::Embed(Embed {
                title: None,
                url: None,
                description: Some("Skipped {}.".to_string()),
                colour: Colour::GOLD,
                fields: vec![],
                thumbnail: None,
                footer: Some(Footer {
                    text: "Invoked by ada".to_string(),
                    icon_url: "https://example.org/ada.png".to_string(),
                }),
            })),
        }
    );
}

#[test]
fn stop_empties_the_queue() {
    assert_eq!(stop(true), say(Action::Stop, "Skipped song and cleared queue"));
    assert_eq!(stop(false), say(Action::Nothing, "Not in a voice channel to play in"));
}

fn loop_set(action: Action, mode: &str) -> Outcome {
    Outcome {
        action,
        reply: Some(Reply::Embed(gold_note(&format!("Loop set to `{}`", mode)))),
    }
}

#[test]
fn loop_needs_a_current_track() {
    for mode in ["", "current", "disable", "queue"] {
        assert_eq!(
            loop_command(mode, false, None),
            say(Action::Nothing, "Nothing playing currently")
        );
        assert_eq!(
            loop_command(mode, false, Some(LoopState::Infinite)),
            say(Action::Nothing, "Nothing playing currently")
        );
        assert_eq!(
            loop_command(mode, true, None),
            say(Action::Nothing, "Nothing playing currently")
        );
    }
}

#[test]
fn loop_follows_the_argument() {
    for loops in [LoopState::Infinite, LoopState::Finite(0), LoopState::Finite(3)] {
        assert_eq!(
            loop_command("current", true, Some(loops)),
            loop_set(Action::EnableLoop, "current")
        );
        assert_eq!(
            loop_command("disable", true, Some(loops)),
            loop_set(Action::DisableLoop, "disable")
        );
    }
}

#[test]
fn loop_is_switched_over_without_a_mode() {
    for mode in ["", "queue", "Current", "current ", "disabled", "on"] {
        assert_eq!(
            loop_command(mode, true, Some(LoopState::Finite(0))),
            loop_set(Action::EnableLoop, "current")
        );
        assert_eq!(
            loop_command(mode, true, Some(LoopState::Finite(3))),
            loop_set(Action::EnableLoop, "current")
        );
        assert_eq!(
            loop_command(mode, true, Some(LoopState::Infinite)),
            loop_set(Action::DisableLoop, "disable")
        );
    }
}

#[test]
fn volume_turns_down_what_is_no_level() {
    let turned_down = say(Action::Nothing, "Volume must be a number between `1-100`");
    assert_eq!(volume(&None, false, true, true), turned_down);
    assert_eq!(volume(&None, true, true, true), turned_down);
    assert_eq!(volume(&Some("0".to_string()), false, true, true), turned_down);
    assert_eq!(volume(&Some("0.5".to_string()), false, true, true), turned_down);
    assert_eq!(volume(&Some("-5".to_string()), false, true, true), turned_down);
    assert_eq!(volume(&Some("1000".to_string()), false, true, true), turned_down);
    assert_eq!(volume(&Some("NaN".to_string()), false, true, true), turned_down);
    assert_eq!(volume(&Some("inf".to_string()), false, false, false), turned_down);
}

#[test]
fn volume_needs_a_current_track() {
    assert_eq!(
        volume(&Some("50".to_string()), true, false, true),
        say(Action::Nothing, "Nothing playing currently")
    );
    assert_eq!(
        volume(&Some("50".to_string()), true, true, false),
        say(Action::Nothing, "Nothing playing currently")
    );
}

#[test]
fn volume_reports_the_level() {
    for level in ["1", "50", "62.5", "100"] {
        assert_eq!(
            volume(&Some(level.to_string()), true, true, true),
            Outcome {
                action: Action::SetVolume,
                reply: Some(Reply::Embed(gold_note(&format!("Set the volume to `{}`", level)))),
            }
        );
    }
}

#[test]
fn farewell_is_built_around_the_written_title() {
    assert_eq!(
        farewell_notice("<title>"),
        Embed {
            title: Some("Queue has Ended".to_string()),
            url: None,
            description: Some(
                "Last song played: **<title>**\nTo continue listening, play another song!"
                    .to_string()
            ),
            colour: Colour::GOLD,
            fields: vec![],
            thumbnail: None,
            footer: None,
        }
    );
}

#[test]
fn now_playing_line_is_built_around_the_written_length() {
    assert_eq!(
        write_now_playing(&song(1), 12, "65s"),
        "[Song 1](https://example.org/1) [12:65s]"
    );
    assert_eq!(write_now_playing(&song(3), 0, ""), "[Song 3](https://example.org/3) [0:]");
    assert_eq!(
        write_now_playing(&song(3), u64::MAX, "x"),
        "[Song 3](https://example.org/3) [18446744073709551615:x]"
    );
}

#[test]
fn removal_is_built_around_the_written_title() {
    match removed_with(4, &Some("<title>".to_string()), &member()) {
        Reply::Embed(embed) => {
            assert_eq!(embed.title, Some("Removed Song from Queue".to_string()));
            assert_eq!(embed.description, Some("Removed **<title>** from the queue (".to_string()));
            assert_eq!(embed.colour, Colour::GOLD);
            assert_eq!(
                embed.footer,
                Some(Footer {
                    text: "Invoked by ada".to_string(),
                    icon_url: "https://example.org/ada.png".to_string(),
                })
            );
        },
        other => panic!("no embed: {:?}", other),
    }
    assert_eq!(
        removed_with(4, &None, &member()),
        Reply::Say("There is no song at index 4".to_string())
    );
    assert_eq!(removed_with(4, &None, &member()), removed(4, &None, &member()));
}

#[test]
fn announcement_is_built_around_the_written_length() {
    let mut info = song(2);
    info.duration = None;
    assert!(info.is_credited());
    assert!(!info.is_presentable());
    let embed = announce_with(&info, "a while".to_string(), None);
    assert_eq!(
        embed.fields,
        vec![
            field("• Duration", "a while", true),
            field("• Author", "Band 2", true),
            field("• URL", "[Click](https://example.org/2)", true),
        ]
    );
    assert_eq!(
        announce_with(&song(2), "2 minutes, 5 seconds".to_string(), Some(7)),
        announce(&song(2), Some(7))
    );
    info.channel = None;
    assert!(!info.is_credited());
}

#[test]
fn track_end_keeps_the_watch() {
    assert!(!names_one_track(&vec![]));
    assert!(names_one_track(&vec![untitled()]));
    assert!(!names_one_track(&vec![song(1), song(2)]));
    assert!(track_ended(&vec![], false, &vec![]).keep_watching);
    assert!(track_ended(&vec![song(1)], false, &vec![]).keep_watching);
    assert!(track_ended(&vec![song(1)], true, &vec![]).keep_watching);
    assert!(track_ended(&vec![song(1)], true, &vec![song(2)]).keep_watching);
}

#[test]
fn ping_answers_and_reports_the_delay() {
    assert_eq!(ping(), Reply::Answer("Pong!".to_string()));
    assert_eq!(ping_report(0), "Pong! `0` ms");
    assert_eq!(ping_report(137), "Pong! `137` ms");
    assert_eq!(
        ping_report(u128::MAX),
        "Pong! `340282366920938463463374607431768211455` ms"
    );
}

use airlink::level::{Level, Seconds};
use airlink::player::{
    default_true, Phase, PlayerAction, PlayerCommand, PlayerEvent, PlayerState, PlayerStateData,
    Track,
};
use airlink::player_api::{
    begin_upload, control_player, name_upload, needs_saving, upload_status, ControlReq, Upload,
};

fn secs(t: f64) -> Seconds {
    Seconds { bits: t.to_bits() }
}

fn track(name: &str) -> Track {
    Track {
        id: format!("id-{}", name),
        name: name.to_string(),
        path: format!("uploads/{}", name),
        duration_sec: secs(60.0),
    }
}

fn playing(names: &[&str], current_idx: usize) -> PlayerState {
    let mut state = PlayerState::new(None);
    for name in names {
        state.data.playlist.push(track(name));
    }
    state.data.current_idx = current_idx;
    state.data.playing = true;
    state.data.position_sec = secs(12.5);
    match state.step(PlayerEvent::Select) {
        PlayerAction::Start(_) => {}
        other => panic!("no start: {:?}", other),
    }
    state
}

fn command(state: &mut PlayerState, command: PlayerCommand) -> PlayerAction {
    state.step(PlayerEvent::Command { command, nanos: 0 })
}

fn names(state: &PlayerState) -> Vec<String> {
    state.data.playlist.iter().map(|t| t.name.clone()).collect()
}

#[test]
fn fresh_player_is_empty_paused_and_loops() {
    let state = PlayerState::new(None);
    assert!(state.data.playlist.is_empty());
    assert_eq!(state.data.current_idx, 0);
    assert!(!state.data.playing);
    assert_eq!(state.data.position_sec, secs(0.0));
    assert!(state.data.loop_queue);
    assert!(!state.data.shuffle);
    assert_eq!(state.phase, Phase::Selecting);
    assert!(default_true());
}

#[test]
fn restored_player_starts_paused() {
    let mut saved = PlayerStateData::fresh();
    saved.playlist.push(track("a"));
    saved.playlist.push(track("b"));
    saved.current_idx = 1;
    saved.playing = true;
    saved.position_sec = secs(3.0);
    saved.loop_queue = false;
    saved.shuffle = true;
    let state = PlayerState::new(Some(saved));
    assert!(!state.data.playing);
    assert_eq!(state.data.current_idx, 1);
    assert_eq!(state.data.position_sec, secs(3.0));
    assert!(!state.data.loop_queue);
    assert!(state.data.shuffle);
    assert_eq!(names(&state), vec!["a", "b"]);
}

#[test]
fn selecting_starts_the_current_track_where_it_was_left() {
    let mut state = PlayerState::new(None);
    state.data.playlist.push(track("a"));
    state.data.playlist.push(track("b"));
    state.data.current_idx = 1;
    state.data.playing = true;
    state.data.position_sec = secs(7.25);
    match state.step(PlayerEvent::Select) {
        PlayerAction::Start(cue) => {
            assert_eq!(cue.path, "uploads/b");
            assert_eq!(cue.position, secs(7.25));
        }
        other => panic!("{:?}", other),
    }
    assert_eq!(state.phase, Phase::Streaming { fading_out: false });
    assert!(state.data.playing);
}

#[test]
fn selecting_without_a_track_waits_and_stops_playing() {
    let mut state = PlayerState::new(None);
    state.data.playing = true;
    assert!(matches!(state.step(PlayerEvent::Select), PlayerAction::Rest));
    assert_eq!(state.phase, Phase::Waiting);
    assert!(!state.data.playing);
}

#[test]
fn play_wakes_a_waiting_player() {
    let mut state = PlayerState::new(None);
    state.data.playlist.push(track("a"));
    state.step(PlayerEvent::Select);
    assert_eq!(state.phase, Phase::Waiting);
    assert!(matches!(command(&mut state, PlayerCommand::Play), PlayerAction::Rest));
    assert_eq!(state.phase, Phase::Selecting);
    assert!(state.data.playing);
    assert!(matches!(state.step(PlayerEvent::Select), PlayerAction::Start(_)));
}

#[test]
fn missed_commands_make_a_waiting_player_look_again() {
    let mut state = PlayerState::new(None);
    state.step(PlayerEvent::Select);
    state.step(PlayerEvent::Missed);
    assert_eq!(state.phase, Phase::Selecting);
}

#[test]
fn waiting_player_ignores_pause_next_prev_and_times() {
    for cmd in [
        PlayerCommand::Pause,
        PlayerCommand::Next,
        PlayerCommand::Prev,
        PlayerCommand::SeekTime(secs(9.0)),
    ] {
        let mut state = PlayerState::new(None);
        state.data.playlist.push(track("a"));
        state.data.playlist.push(track("b"));
        state.data.position_sec = secs(4.0);
        state.step(PlayerEvent::Select);
        command(&mut state, cmd);
        assert_eq!(state.data.current_idx, 0);
        assert_eq!(state.data.position_sec, secs(4.0));
        assert!(!state.data.playing);
        assert_eq!(state.phase, Phase::Selecting);
    }
}

#[test]
fn waiting_player_seeks_a_track_and_plays() {
    let mut state = PlayerState::new(None);
    state.step(PlayerEvent::Select);
    command(&mut state, PlayerCommand::Seek(5));
    assert_eq!(state.data.current_idx, 0);
    assert!(state.data.playing);

    let mut state = PlayerState::new(None);
    for n in ["a", "b", "c"] {
        state.data.playlist.push(track(n));
    }
    state.data.position_sec = secs(4.0);
    state.step(PlayerEvent::Select);
    command(&mut state, PlayerCommand::Seek(5));
    assert_eq!(state.data.current_idx, 2);
    assert_eq!(state.data.position_sec, secs(0.0));
    assert!(state.data.playing);
}

#[test]
fn waiting_player_removes_and_moves_tracks() {
    let mut state = PlayerState::new(None);
    for n in ["a", "b", "c"] {
        state.data.playlist.push(track(n));
    }
    state.data.current_idx = 2;
    state.step(PlayerEvent::Select);
    match command(&mut state, PlayerCommand::RemoveTrack(0)) {
        PlayerAction::Delete(path) => assert_eq!(path, "uploads/a"),
        other => panic!("{:?}", other),
    }
    assert_eq!(names(&state), vec!["b", "c"]);
    assert_eq!(state.data.current_idx, 1);
    state.step(PlayerEvent::Select);
    command(&mut state, PlayerCommand::MoveTrack(1, 0));
    assert_eq!(names(&state), vec!["c", "b"]);
    assert_eq!(state.data.current_idx, 0);
    state.step(PlayerEvent::Select);
    assert!(matches!(command(&mut state, PlayerCommand::RemoveTrack(2)), PlayerAction::Rest));
    state.step(PlayerEvent::Select);
    command(&mut state, PlayerCommand::ToggleLoop);
    state.step(PlayerEvent::Select);
    command(&mut state, PlayerCommand::ToggleShuffle);
    assert!(!state.data.loop_queue);
    assert!(state.data.shuffle);
}

#[test]
fn next_and_prev_go_round_and_start_at_zero() {
    let mut state = playing(&["a", "b", "c"], 2);
    command(&mut state, PlayerCommand::Next);
    assert_eq!(state.data.current_idx, 0);
    assert_eq!(state.data.position_sec, secs(0.0));
    assert_eq!(state.phase, Phase::Streaming { fading_out: true });
    command(&mut state, PlayerCommand::Prev);
    assert_eq!(state.data.current_idx, 2);
    command(&mut state, PlayerCommand::Prev);
    assert_eq!(state.data.current_idx, 1);
    command(&mut state, PlayerCommand::Next);
    assert_eq!(state.data.current_idx, 2);
}

#[test]
fn shuffle_follows_the_clock_but_never_repeats() {
    for nanos in 0..12usize {
        let mut state = playing(&["a", "b", "c", "d"], 1);
        state.data.shuffle = true;
        state.step(PlayerEvent::Command { command: PlayerCommand::Next, nanos });
        let expected = if nanos % 4 == 1 { 2 } else { nanos % 4 };
        assert_eq!(state.data.current_idx, expected);
        assert_ne!(state.data.current_idx, 1);
    }
    let mut state = playing(&["a", "b"], 1);
    state.data.shuffle = true;
    state.step(PlayerEvent::Command { command: PlayerCommand::Next, nanos: 1 });
    assert_eq!(state.data.current_idx, 0);
    let mut state = playing(&["a"], 0);
    state.data.shuffle = true;
    state.step(PlayerEvent::Command { command: PlayerCommand::Next, nanos: 7 });
    assert_eq!(state.data.current_idx, 0);
}

#[test]
fn seeking_wraps_and_times_are_not_negative() {
    let mut state = playing(&["a", "b", "c"], 0);
    command(&mut state, PlayerCommand::Seek(7));
    assert_eq!(state.data.current_idx, 1);
    assert_eq!(state.data.position_sec, secs(0.0));
    command(&mut state, PlayerCommand::SeekTime(secs(33.5)));
    assert_eq!(state.data.position_sec, secs(33.5));
    command(&mut state, PlayerCommand::SeekTime(secs(-2.0)));
    assert_eq!(state.data.position_sec, secs(0.0));
    command(&mut state, PlayerCommand::SeekTime(secs(f64::NAN)));
    assert_eq!(state.data.position_sec, secs(0.0));
    assert_eq!(state.phase, Phase::Streaming { fading_out: true });
}

#[test]
fn removing_the_current_track_fades_out_and_goes_on() {
    let mut state = playing(&["a", "b", "c"], 1);
    match command(&mut state, PlayerCommand::RemoveTrack(1)) {
        PlayerAction::Delete(path) => assert_eq!(path, "uploads/b"),
        other => panic!("{:?}", other),
    }
    assert_eq!(names(&state), vec!["a", "c"]);
    assert_eq!(state.data.current_idx, 1);
    assert!(state.data.playing);
    assert_eq!(state.phase, Phase::Streaming { fading_out: true });

    command(&mut state, PlayerCommand::RemoveTrack(1));
    assert_eq!(state.data.current_idx, 0);
    assert!(state.data.playing);
    command(&mut state, PlayerCommand::RemoveTrack(0));
    assert!(state.data.playlist.is_empty());
    assert_eq!(state.data.current_idx, 0);
    assert!(!state.data.playing);
}

#[test]
fn removing_another_track_keeps_the_current_one_playing() {
    let mut state = playing(&["a", "b", "c"], 1);
    command(&mut state, PlayerCommand::RemoveTrack(0));
    assert_eq!(names(&state), vec!["b", "c"]);
    assert_eq!(state.data.current_idx, 0);
    assert_eq!(state.phase, Phase::Streaming { fading_out: false });
    command(&mut state, PlayerCommand::RemoveTrack(1));
    assert_eq!(names(&state), vec!["b"]);
    assert_eq!(state.data.current_idx, 0);
    assert_eq!(state.phase, Phase::Streaming { fading_out: false });
    assert!(matches!(command(&mut state, PlayerCommand::RemoveTrack(9)), PlayerAction::Rest));
    assert_eq!(names(&state), vec!["b"]);
}

#[test]
fn moving_tracks_follows_the_current_one() {
    for from in 0..5usize {
        for to in 0..5usize {
            for current in 0..5usize {
                let all = ["a", "b", "c", "d", "e"];
                let mut state = playing(&all, current);
                command(&mut state, PlayerCommand::MoveTrack(from, to));
                assert_eq!(state.data.playlist[to].name, all[from]);
                assert_eq!(state.data.playlist[state.data.current_idx].name, all[current]);
                let mut sorted = names(&state);
                sorted.sort();
                assert_eq!(sorted, vec!["a", "b", "c", "d", "e"]);
                command(&mut state, PlayerCommand::MoveTrack(to, from));
                assert_eq!(names(&state), vec!["a", "b", "c", "d", "e"]);
                assert_eq!(state.data.current_idx, current);
            }
        }
    }
    let mut state = playing(&["a", "b"], 0);
    command(&mut state, PlayerCommand::MoveTrack(0, 2));
    command(&mut state, PlayerCommand::MoveTrack(2, 0));
    assert_eq!(names(&state), vec!["a", "b"]);
    assert_eq!(state.phase, Phase::Streaming { fading_out: false });
}

#[test]
fn toggles_undo_themselves() {
    let mut state = playing(&["a", "b"], 0);
    command(&mut state, PlayerCommand::ToggleLoop);
    assert!(!state.data.loop_queue);
    command(&mut state, PlayerCommand::ToggleShuffle);
    assert!(state.data.shuffle);
    command(&mut state, PlayerCommand::ToggleLoop);
    command(&mut state, PlayerCommand::ToggleShuffle);
    assert!(state.data.loop_queue);
    assert!(!state.data.shuffle);
    assert_eq!(state.phase, Phase::Streaming { fading_out: false });
}

#[test]
fn chunks_are_sent_until_the_fade_is_inaudible() {
    let mut state = playing(&["a"], 0);
    let silent = Level { bits: 0.0f32.to_bits() };
    let loud = Level { bits: 0.5f32.to_bits() };
    let chunk = |gain: Level, t: f64| PlayerEvent::Chunk { gain, position: secs(t) };
    assert!(matches!(state.step(chunk(silent, 1.0)), PlayerAction::Emit));
    assert_eq!(state.data.position_sec, secs(1.0));
    command(&mut state, PlayerCommand::Pause);
    assert!(!state.data.playing);
    assert!(matches!(state.step(chunk(loud, 2.0)), PlayerAction::Emit));
    assert_eq!(state.data.position_sec, secs(2.0));
    assert!(matches!(state.step(chunk(silent, 3.0)), PlayerAction::Stop));
    assert_eq!(state.data.position_sec, secs(2.0));
    assert_eq!(state.phase, Phase::Selecting);
    state.step(PlayerEvent::Select);
    assert_eq!(state.phase, Phase::Waiting);
}

#[test]
fn play_ends_a_fade() {
    let mut state = playing(&["a", "b"], 0);
    command(&mut state, PlayerCommand::Next);
    command(&mut state, PlayerCommand::Play);
    assert_eq!(state.phase, Phase::Streaming { fading_out: false });
}

#[test]
fn looping_queue_goes_round_and_keeps_its_position() {
    let mut state = playing(&["a", "b", "c"], 1);
    for expected in [2usize, 0, 1, 2] {
        assert!(matches!(state.step(PlayerEvent::TrackEnded { nanos: 5 }), PlayerAction::Stop));
        assert_eq!(state.data.current_idx, expected);
        assert_eq!(state.data.position_sec, secs(12.5));
        assert!(matches!(state.step(PlayerEvent::Select), PlayerAction::Start(_)));
    }
}

#[test]
fn queue_that_does_not_loop_stops_after_its_last_track() {
    let mut state = playing(&["a", "b"], 0);
    state.data.loop_queue = false;
    state.step(PlayerEvent::TrackEnded { nanos: 0 });
    assert_eq!(state.data.current_idx, 1);
    assert!(state.data.playing);
    state.step(PlayerEvent::Select);
    state.step(PlayerEvent::TrackEnded { nanos: 0 });
    assert_eq!(state.data.current_idx, 1);
    assert!(!state.data.playing);
    assert_eq!(state.data.position_sec, secs(0.0));
    state.step(PlayerEvent::Select);
    assert_eq!(state.phase, Phase::Waiting);
}

#[test]
fn commands_on_an_emptied_playlist_do_nothing() {
    let mut state = playing(&["a"], 0);
    state.data.playlist.clear();
    for cmd in [PlayerCommand::Next, PlayerCommand::Prev, PlayerCommand::Seek(3)] {
        command(&mut state, cmd);
        assert_eq!(state.data.current_idx, 0);
        assert_eq!(state.data.position_sec, secs(12.5));
    }
    state.step(PlayerEvent::TrackEnded { nanos: 0 });
    assert_eq!(state.data.current_idx, 0);
}

fn request(action: &str, index: Option<usize>, to_index: Option<usize>, time: Option<f64>) -> ControlReq {
    ControlReq { action: action.to_string(), index, to_index, time: time.map(secs) }
}

#[test]
fn control_requests_become_commands() {
    let plain = |a: &str| control_player(&request(a, None, None, None));
    assert_eq!(plain("play"), Some(PlayerCommand::Play));
    assert_eq!(plain("pause"), Some(PlayerCommand::Pause));
    assert_eq!(plain("next"), Some(PlayerCommand::Next));
    assert_eq!(plain("prev"), Some(PlayerCommand::Prev));
    assert_eq!(plain("toggle_loop"), Some(PlayerCommand::ToggleLoop));
    assert_eq!(plain("toggle_shuffle"), Some(PlayerCommand::ToggleShuffle));
    assert_eq!(
        control_player(&request("seek", None, None, Some(4.5))),
        Some(PlayerCommand::SeekTime(secs(4.5)))
    );
    assert_eq!(
        control_player(&request("seek_track", Some(3), None, None)),
        Some(PlayerCommand::Seek(3))
    );
    assert_eq!(
        control_player(&request("remove_track", Some(2), None, None)),
        Some(PlayerCommand::RemoveTrack(2))
    );
    assert_eq!(
        control_player(&request("move_track", Some(2), Some(0), None)),
        Some(PlayerCommand::MoveTrack(2, 0))
    );
}

#[test]
fn bad_control_requests_are_turned_down() {
    for (action, index, to_index, time) in [
        ("seek", Some(1), None, None),
        ("seek_track", None, Some(1), Some(1.0)),
        ("remove_track", None, None, None),
        ("move_track", Some(1), None, None),
        ("move_track", None, Some(1), None),
        ("", None, None, None),
        ("Play", None, None, None),
        ("stop", Some(1), Some(1), Some(1.0)),
    ] {
        assert_eq!(control_player(&request(action, index, to_index, time)), None);
    }
}

#[test]
fn commands_prime_the_player_at_once() {
    let mut data = PlayerStateData::fresh();
    data.prime(PlayerCommand::Play);
    assert!(!data.playing);
    data.playlist.push(track("a"));
    data.prime(PlayerCommand::Next);
    assert!(!data.playing);
    data.prime(PlayerCommand::SeekTime(secs(1.0)));
    assert!(data.playing);
    assert_eq!(data.position_sec, secs(0.0));
    data.prime(PlayerCommand::Pause);
    assert!(!data.playing);
    data.prime(PlayerCommand::Play);
    assert!(data.playing);
}

#[test]
fn uploads_are_named_and_added_at_the_end() {
    let upload = name_upload("7f".to_string(), Some("song.mp3".to_string()));
    assert_eq!(upload.id, "7f");
    assert_eq!(upload.name, "song.mp3");
    assert_eq!(upload.path, "uploads/7f_song.mp3");
    let upload = name_upload("8a".to_string(), None);
    assert_eq!(upload.name, "track");
    assert_eq!(upload.path, "uploads/8a_track");

    let mut data = PlayerStateData::fresh();
    data.playlist.push(track("a"));
    data.add_track(upload, secs(61.25));
    assert_eq!(data.playlist.len(), 2);
    assert_eq!(data.playlist[1].id, "8a");
    assert_eq!(data.playlist[1].name, "track");
    assert_eq!(data.playlist[1].path, "uploads/8a_track");
    assert_eq!(data.playlist[1].duration_sec, secs(61.25));
    assert_eq!(data.current_idx, 0);
}

#[test]
fn every_upload_gets_an_identifier_of_its_own() {
    let a: Upload = begin_upload(Some("x".to_string()));
    let b: Upload = begin_upload(Some("x".to_string()));
    assert_ne!(a.id, b.id);
    assert_ne!(a.path, b.path);
    for u in [&a, &b] {
        let chars: Vec<char> = u.id.chars().collect();
        assert_eq!(chars.len(), 36);
        for (i, c) in chars.iter().enumerate() {
            if [8, 13, 18, 23].contains(&i) {
                assert_eq!(*c, '-');
            } else {
                assert!(c.is_ascii_digit() || ('a'..='f').contains(c));
            }
        }
        assert_eq!(chars[14], '4');
        assert!("89ab".contains(chars[19]));
        assert_eq!(u.path, format!("uploads/{}_x", u.id));
    }
}

#[test]
fn upload_status_and_saving() {
    assert_eq!(upload_status(true), 200);
    assert_eq!(upload_status(false), 400);
    assert!(needs_saving("{\"a\":1}", ""));
    assert!(!needs_saving("{\"a\":1}", "{\"a\":1}"));
}

#[test]
fn events_that_cannot_be_taken_are_told() {
    let select = PlayerEvent::Select;
    let ended = PlayerEvent::TrackEnded { nanos: 0 };
    let next = PlayerEvent::Command { command: PlayerCommand::Next, nanos: 0 };

    let mut saved = PlayerStateData::fresh();
    saved.playlist.push(track("a"));
    saved.current_idx = 1;
    let mut state = PlayerState::new(Some(saved));
    assert!(state.can_take(select));
    state.data.playing = true;
    assert!(!state.can_take(select));
    state.data.current_idx = 0;
    assert!(state.can_take(select));

    let mut state = playing(&["a", "b"], 0);
    assert!(state.can_take(next) && state.can_take(ended));
    state.data.current_idx = usize::MAX;
    assert!(!state.can_take(next) && !state.can_take(ended));
    state.data.shuffle = true;
    assert!(state.can_take(next) && state.can_take(ended));
    state.data.loop_queue = false;
    assert!(state.can_take(next) && !state.can_take(ended));
}

#[test]
fn upload_adds_what_was_kept_in_order() {
    let kept = |id: &str, t: f64| Some((name_upload(id.to_string(), None), secs(t)));
    let mut data = PlayerStateData::fresh();
    data.playlist.push(track("a"));
    let mut uploaded = false;
    for field in [None, kept("1", 5.0), None, kept("2", 6.0)] {
        uploaded = data.take_field(field, uploaded);
    }
    assert_eq!(upload_status(uploaded), 200);
    let ids: Vec<&str> = data.playlist.iter().map(|t| t.id.as_str()).collect();
    assert_eq!(ids, vec!["id-a", "1", "2"]);
    assert_eq!(data.playlist[2].duration_sec, secs(6.0));

    let mut uploaded = false;
    for _ in 0..2 {
        uploaded = data.take_field(None, uploaded);
    }
    assert_eq!(upload_status(uploaded), 400);
    assert_eq!(data.playlist.len(), 3);
}

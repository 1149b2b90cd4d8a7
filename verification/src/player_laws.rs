//! What each turn of the player loop does, said of the calls that make it.
//!
//! Each law takes a call, with what it was given and what it gave, and says how the
//! two relate. `p` is the player before the call, and `final(p)` after it.

use crate::ids::{drawn, is_random_uuid};
use crate::level::{Level, Seconds};
use crate::player::{
    default_true, Phase, PlayerAction, PlayerCommand, PlayerEvent, PlayerState, PlayerStateData,
    PlayerView, Track,
};
use crate::player_api::{
    begin_upload, control_player, name_upload, needs_saving, upload_status, ControlReq, Upload,
};
use vstd::prelude::*;

verus! {

/// The end of a track in a queue that loops and shuffles among several: another track
/// is always next, the one that the clock draws; a draw of the track that just ended
/// is moved on by one, round the end. Nothing else changes. So every other track can
/// come next: for each there is a clock reading that leads to it.
pub proof fn law_shuffled_queue_goes_to_another_track(
    p: &mut PlayerState,
    fading_out: bool,
    nanos: usize,
    r: PlayerAction,
)
    requires
        call_ensures(PlayerState::step, (p, PlayerEvent::TrackEnded { nanos }), r),
        old(p).phase == (Phase::Streaming { fading_out }),
        old(p).data.loop_queue,
        old(p).data.shuffle,
        old(p).data.playlist@.len() > 1,
        old(p).data.current_idx < old(p).data.playlist@.len(),
    ensures
        ({
            let len = old(p).data.playlist@.len() as int;
            let ended = old(p).data.current_idx as int;
            let next = final(p).data.current_idx as int;
            &&& next != ended
            &&& 0 <= next < len
            &&& nanos as int % len != ended ==> next == nanos as int % len
            &&& nanos as int % len == ended ==> next == (if ended + 1 < len {
                ended + 1
            } else {
                0
            })
            &&& nanos < len && nanos != ended ==> next == nanos
            &&& final(p).data@ == (PlayerView { current_idx: next, ..old(p).data@ })
            &&& final(p).phase == Phase::Selecting
            &&& r == PlayerAction::Stop
        }),
{
    let len = old(p).data.playlist@.len() as int;
    lemma_next_place(old(p).data.current_idx as int, len);
    lemma_place(nanos as int, len);
}


/// The end of a track in a queue that loops, in order: the track after it is next,
/// and the first after the last. Nothing else changes, the position included.
pub proof fn law_ordered_queue_goes_round(
    p: &mut PlayerState,
    fading_out: bool,
    nanos: usize,
    r: PlayerAction,
)
    requires
        call_ensures(PlayerState::step, (p, PlayerEvent::TrackEnded { nanos }), r),
        old(p).phase == (Phase::Streaming { fading_out }),
        old(p).data.loop_queue,
        !old(p).data.shuffle || old(p).data.playlist@.len() == 1,
        old(p).data.current_idx < old(p).data.playlist@.len(),
    ensures
        final(p).data@ == (PlayerView {
            current_idx: if old(p).data.current_idx + 1 < old(p).data.playlist@.len() {
                old(p).data.current_idx + 1
            } else {
                0
            },
            ..old(p).data@
        }),
        final(p).phase == Phase::Selecting,
        r == PlayerAction::Stop,
{
    lemma_next_place(old(p).data.current_idx as int, old(p).data.playlist@.len() as int);
}

/// The end of a track in a queue that does not loop, shuffled or not: the track after
/// it is next; after the last one the player stops, at the start of that track. An
/// empty playlist stays as it is.
pub proof fn law_queue_that_does_not_loop_ends(
    p: &mut PlayerState,
    fading_out: bool,
    nanos: usize,
    r: PlayerAction,
)
    requires
        call_ensures(PlayerState::step, (p, PlayerEvent::TrackEnded { nanos }), r),
        old(p).phase == (Phase::Streaming { fading_out }),
    ensures
        !old(p).data.loop_queue && old(p).data.current_idx + 1 < old(p).data.playlist@.len() ==> final(p).data@ == (PlayerView {
            current_idx: old(p).data.current_idx + 1,
            ..old(p).data@
        }),
        !old(p).data.loop_queue && 0 < old(p).data.playlist@.len() <= old(p).data.current_idx + 1
            ==> final(p).data@ == (PlayerView {
            playing: false,
            position_sec: Seconds { bits: 0 },
            ..old(p).data@
        }),
        old(p).data.playlist@.len() == 0 ==> final(p).data@ == old(p).data@,
        final(p).phase == Phase::Selecting,
        r == PlayerAction::Stop,
{
}

/// `Next` goes to the start of another place, fading out what plays: the place after
/// the current one, round the end; shuffling among several tracks, the one that the
/// clock draws, moved on by one where that is the current one. The tracks, the switches
/// and whether the player is on stay.
pub proof fn law_next_goes_to_the_start_of_another(
    p: &mut PlayerState,
    fading_out: bool,
    nanos: usize,
    r: PlayerAction,
)
    requires
        call_ensures(
            PlayerState::step,
            (p, PlayerEvent::Command { command: PlayerCommand::Next, nanos }),
            r,
        ),
        old(p).phase == (Phase::Streaming { fading_out }),
    ensures
        r == PlayerAction::Rest,
        final(p).phase == (Phase::Streaming { fading_out: true }),
        old(p).data.playlist@.len() == 0 ==> final(p).data@ == old(p).data@,
        old(p).data.playlist@.len() > 0 ==> final(p).data@ == (PlayerView {
            current_idx: final(p).data.current_idx as int,
            position_sec: Seconds { bits: 0 },
            ..old(p).data@
        }),
        old(p).data.current_idx < old(p).data.playlist@.len() ==> {
            let len = old(p).data.playlist@.len() as int;
            let at = old(p).data.current_idx as int;
            let next = final(p).data.current_idx as int;
            let after = if at + 1 < len {
                at + 1
            } else {
                0
            };
            &&& 0 <= next < len
            &&& !old(p).data.shuffle || len == 1 ==> next == after
            &&& old(p).data.shuffle && len > 1 ==> next != at
            &&& old(p).data.shuffle && len > 1 && nanos as int % len != at ==> next == nanos as int
                % len
            &&& old(p).data.shuffle && len > 1 && nanos as int % len == at ==> next == after
        },
{
    let len = old(p).data.playlist@.len() as int;
    if old(p).data.current_idx < len {
        lemma_next_place(old(p).data.current_idx as int, len);
        lemma_place(nanos as int, len);
    }
}

/// `Prev` goes to the start of the place before, from the first to the last, fading out
/// what plays. Nothing else changes.
pub proof fn law_prev_goes_to_the_place_before(
    p: &mut PlayerState,
    fading_out: bool,
    nanos: usize,
    r: PlayerAction,
)
    requires
        call_ensures(
            PlayerState::step,
            (p, PlayerEvent::Command { command: PlayerCommand::Prev, nanos }),
            r,
        ),
        old(p).phase == (Phase::Streaming { fading_out }),
    ensures
        r == PlayerAction::Rest,
        final(p).phase == (Phase::Streaming { fading_out: true }),
        final(p).data@ == (if old(p).data.playlist@.len() == 0 {
            old(p).data@
        } else {
            PlayerView {
                current_idx: if old(p).data.current_idx == 0 {
                    old(p).data.playlist@.len() - 1
                } else {
                    old(p).data.current_idx - 1
                },
                position_sec: Seconds { bits: 0 },
                ..old(p).data@
            }
        }),
{
}

/// Going to a track goes to its start: to the track of that index where there is one,
/// and to one of its remainder, counted round, where there is none. While a track plays
/// it fades out, and the player stays as it was, on or off; while nothing plays the
/// player is on afterwards. In an empty playlist it goes to the first place, where
/// nothing plays, and nowhere else.
pub proof fn law_seek_goes_to_the_start_of_that_track(
    p: &mut PlayerState,
    idx: usize,
    nanos: usize,
    r: PlayerAction,
)
    requires
        call_ensures(
            PlayerState::step,
            (p, PlayerEvent::Command { command: PlayerCommand::Seek(idx), nanos }),
            r,
        ),
        old(p).phase != Phase::Selecting,
    ensures
        r == PlayerAction::Rest,
        ({
            let len = old(p).data.playlist@.len() as int;
            let waiting = old(p).phase == Phase::Waiting;
            let at = final(p).data.current_idx as int;
            &&& final(p).phase == (if waiting {
                Phase::Selecting
            } else {
                Phase::Streaming { fading_out: true }
            })
            &&& len > 0 ==> 0 <= at < len && (idx - at) % len == 0
            &&& idx < len ==> at == idx
            &&& len == 0 && waiting ==> at == 0
            &&& len > 0 || waiting ==> final(p).data@ == (PlayerView {
                current_idx: at,
                position_sec: Seconds { bits: 0 },
                playing: waiting || old(p).data.playing,
                ..old(p).data@
            })
            &&& len == 0 && !waiting ==> final(p).data@ == old(p).data@
        }),
{
    let len = old(p).data.playlist@.len() as int;
    if len > 0 {
        let at = idx as int % len;
        lemma_place(idx as int, len);
        vstd::arithmetic::div_mod::lemma_fundamental_div_mod(idx as int, len);
        assert(idx - at == (idx as int / len) * len) by (nonlinear_arith)
            requires
                idx as int == len * (idx as int / len) + at,
        ;
        vstd::arithmetic::div_mod::lemma_mod_multiples_basic(idx as int / len, len);
    }
}

/// Going to a time within the running track sets that time, and 0.0 for one that is
/// below it or no number, and fades out what plays. While nothing plays it does
/// nothing.
pub proof fn law_seek_time_sets_the_time(
    p: &mut PlayerState,
    time: Seconds,
    nanos: usize,
    r: PlayerAction,
)
    requires
        call_ensures(
            PlayerState::step,
            (p, PlayerEvent::Command { command: PlayerCommand::SeekTime(time), nanos }),
            r,
        ),
    ensures
        r == PlayerAction::Rest,
        old(p).phase is Streaming ==> {
            &&& final(p).phase == (Phase::Streaming { fading_out: true })
            &&& final(p).data@ == (PlayerView {
                position_sec: Seconds {
                    bits: if time.bits <= 0x7ff0_0000_0000_0000 {
                        time.bits
                    } else {
                        0
                    },
                },
                ..old(p).data@
            })
        },
        !(old(p).phase is Streaming) ==> final(p).data@ == old(p).data@,
{
}

/// `Pause` while a track plays turns the player off and fades out what plays; `Play`
/// ends a fade and changes nothing else. While nothing plays, `Play` turns the player
/// on, where it was left, and `Pause`, `Next` and `Prev` do nothing.
pub proof fn law_play_and_pause(
    p: &mut PlayerState,
    command: PlayerCommand,
    nanos: usize,
    r: PlayerAction,
)
    requires
        call_ensures(PlayerState::step, (p, PlayerEvent::Command { command, nanos }), r),
        command == PlayerCommand::Play || command == PlayerCommand::Pause || command
            == PlayerCommand::Next || command == PlayerCommand::Prev,
    ensures
        r == PlayerAction::Rest,
        old(p).phase is Streaming && command == PlayerCommand::Pause ==> {
            &&& final(p).data@ == (PlayerView { playing: false, ..old(p).data@ })
            &&& final(p).phase == (Phase::Streaming { fading_out: true })
        },
        old(p).phase is Streaming && command == PlayerCommand::Play ==> {
            &&& final(p).data@ == old(p).data@
            &&& final(p).phase == (Phase::Streaming { fading_out: false })
        },
        old(p).phase == Phase::Waiting ==> {
            &&& final(p).phase == Phase::Selecting
            &&& final(p).data@ == (PlayerView {
                playing: command == PlayerCommand::Play || old(p).data.playing,
                ..old(p).data@
            })
        },
{
}

/// Removing a track takes out that one and no other, the others in their order, and has
/// its file deleted. The current index stays with its track. Where the current track
/// goes, the one after it becomes current, or the first after the last; while a track
/// plays, it then fades out, and the player is off where it was the only one. Where
/// there is no such track nothing happens.
pub proof fn law_remove_takes_out_one_track(
    p: &mut PlayerState,
    idx: usize,
    nanos: usize,
    r: PlayerAction,
)
    requires
        call_ensures(
            PlayerState::step,
            (p, PlayerEvent::Command { command: PlayerCommand::RemoveTrack(idx), nanos }),
            r,
        ),
        old(p).phase != Phase::Selecting,
    ensures
        ({
            let before = old(p).data.playlist@;
            let after = final(p).data.playlist@;
            let at = old(p).data.current_idx as int;
            let now = final(p).data.current_idx as int;
            let streams = old(p).phase is Streaming;
            let was_fading = old(p).phase == (Phase::Streaming { fading_out: true });
            &&& idx >= before.len() ==> r == PlayerAction::Rest && final(p).data@ == old(p).data@
            &&& idx < before.len() ==> {
                &&& r == PlayerAction::Delete(before[idx as int].path)
                &&& after.len() == before.len() - 1
                &&& forall|i: int| 0 <= i < idx ==> #[trigger] after[i] == before[i]
                &&& forall|i: int| idx < i < before.len() ==> after[i - 1] == #[trigger] before[i]
                &&& at < idx ==> now == at
                &&& at > idx ==> now == at - 1
                &&& at == idx && idx + 1 < before.len() ==> now == idx
                &&& at == idx && idx + 1 == before.len() ==> now == 0
                &&& final(p).data.playing == (old(p).data.playing && !(streams && at == idx
                    && before.len() == 1))
                &&& final(p).data@ == (PlayerView {
                    playlist: after,
                    current_idx: now,
                    playing: final(p).data.playing,
                    ..old(p).data@
                })
            }
            &&& final(p).phase == (if streams {
                Phase::Streaming { fading_out: was_fading || (idx < before.len() && at == idx) }
            } else {
                Phase::Selecting
            })
        }),
{
    let before = old(p).data.playlist@;
    if idx + 1 < before.len() {
        vstd::arithmetic::div_mod::lemma_small_mod(idx as nat, (before.len() - 1) as nat);
    } else if idx + 1 == before.len() && before.len() > 1 {
        vstd::arithmetic::div_mod::lemma_mod_self_0(before.len() - 1);
    }
}

/// Moving a track takes it out and puts it back where it is sent: the other tracks keep
/// their order, each between the two places moves up or down by one, and the current
/// index stays with its track. Nothing else changes; a place that does not exist moves
/// nothing.
pub proof fn law_move_keeps_the_order_of_the_others(
    p: &mut PlayerState,
    from: usize,
    to: usize,
    nanos: usize,
    r: PlayerAction,
)
    requires
        call_ensures(
            PlayerState::step,
            (p, PlayerEvent::Command { command: PlayerCommand::MoveTrack(from, to), nanos }),
            r,
        ),
        old(p).phase != Phase::Selecting,
    ensures
        ({
            let before = old(p).data.playlist@;
            let after = final(p).data.playlist@;
            let at = old(p).data.current_idx as int;
            let now = final(p).data.current_idx as int;
            let places = from < before.len() && to < before.len();
            &&& r == PlayerAction::Rest
            &&& final(p).phase == (if old(p).phase == Phase::Waiting {
                Phase::Selecting
            } else {
                old(p).phase
            })
            &&& !places ==> final(p).data@ == old(p).data@
            &&& places ==> {
                &&& after.len() == before.len()
                &&& after[to as int] == before[from as int]
                &&& after.remove(to as int) == before.remove(from as int)
                &&& forall|i: int| from < i <= to ==> after[i - 1] == #[trigger] before[i]
                &&& forall|i: int| to <= i < from ==> after[i + 1] == #[trigger] before[i]
                &&& forall|i: int|
                    0 <= i < before.len() && (i < from && i < to || i > from && i > to)
                        ==> after[i] == #[trigger] before[i]
                &&& at < before.len() ==> 0 <= now < after.len() && after[now] == before[at]
                &&& at == from ==> now == to
                &&& from < at <= to ==> now == at - 1
                &&& to <= at < from ==> now == at + 1
                &&& (at < from && at < to || at > from && at > to) ==> now == at
                &&& final(p).data@ == (PlayerView {
                    playlist: after,
                    current_idx: now,
                    ..old(p).data@
                })
            }
        }),
{
    let before = old(p).data.playlist@;
    let after = final(p).data.playlist@;
    if from < before.len() && to < before.len() {
        assert(after.remove(to as int) =~= before.remove(from as int));
    }
}

/// Each toggle turns over its own switch and nothing else, whether a track plays or
/// not.
pub proof fn law_each_toggle_turns_its_own_switch(
    p: &mut PlayerState,
    shuffle: bool,
    nanos: usize,
    r: PlayerAction,
)
    requires
        call_ensures(
            PlayerState::step,
            (
                p,
                PlayerEvent::Command {
                    command: if shuffle {
                        PlayerCommand::ToggleShuffle
                    } else {
                        PlayerCommand::ToggleLoop
                    },
                    nanos,
                },
            ),
            r,
        ),
        old(p).phase != Phase::Selecting,
    ensures
        r == PlayerAction::Rest,
        final(p).phase == (if old(p).phase == Phase::Waiting {
            Phase::Selecting
        } else {
            old(p).phase
        }),
        shuffle ==> final(p).data@ == (PlayerView {
            shuffle: !old(p).data.shuffle,
            ..old(p).data@
        }),
        !shuffle ==> final(p).data@ == (PlayerView {
            loop_queue: !old(p).data.loop_queue,
            ..old(p).data@
        }),
{
}

/// Looking for a track starts the current one where it was left, where the player is on
/// and has tracks, and changes nothing of the player; else the player is off, waits,
/// and is otherwise as it was.
pub proof fn law_select_starts_the_current_track(p: &mut PlayerState, r: PlayerAction)
    requires
        call_ensures(PlayerState::step, (p, PlayerEvent::Select), r),
        old(p).phase == Phase::Selecting,
        old(p).data.current_idx < old(p).data.playlist@.len() || old(p).data.playlist@.len() == 0,
    ensures
        old(p).data.playing && old(p).data.playlist@.len() > 0 ==> {
            &&& final(p).data@ == old(p).data@
            &&& final(p).phase == (Phase::Streaming { fading_out: false })
            &&& r matches PlayerAction::Start(cue) && cue.path
                == old(p).data.playlist@[old(p).data.current_idx as int].path && cue.position
                == old(p).data.position_sec
        },
        !old(p).data.playing || old(p).data.playlist@.len() == 0 ==> {
            &&& final(p).data@ == (PlayerView { playing: false, ..old(p).data@ })
            &&& final(p).phase == Phase::Waiting
            &&& r == PlayerAction::Rest
        },
{
}

/// A chunk is sent on and the position goes with it, unless the track is fading out and
/// has become inaudible: the gain is 0.0 or below. Then the decoder stops, the chunk is
/// dropped and the position stays where it was.
pub proof fn law_chunk_is_sent_until_the_fade_has_died(
    p: &mut PlayerState,
    fading_out: bool,
    gain: Level,
    position: Seconds,
    r: PlayerAction,
)
    requires
        call_ensures(PlayerState::step, (p, PlayerEvent::Chunk { gain, position }), r),
        old(p).phase == (Phase::Streaming { fading_out }),
    ensures
        ({
            let silent = gain.bits == 0 || 0x8000_0000 <= gain.bits <= 0xff80_0000;
            &&& fading_out && silent ==> {
                &&& r == PlayerAction::Stop
                &&& final(p).phase == Phase::Selecting
                &&& final(p).data@ == old(p).data@
            }
            &&& !(fading_out && silent) ==> {
                &&& r == PlayerAction::Emit
                &&& final(p).phase == old(p).phase
                &&& final(p).data@ == (PlayerView { position_sec: position, ..old(p).data@ })
            }
        }),
{
}

/// What does not belong to a phase changes nothing: only a look for a track does
/// anything between tracks, no such look does while a track plays or the player waits,
/// and chunks and ends of tracks matter only while one plays. Commands that were missed
/// make a waiting player look again, and do nothing else.
pub proof fn law_nothing_happens_out_of_turn(
    p: &mut PlayerState,
    event: PlayerEvent,
    r: PlayerAction,
)
    requires
        call_ensures(PlayerState::step, (p, event), r),
    ensures
        old(p).phase == Phase::Selecting && event != PlayerEvent::Select ==> r == PlayerAction::Rest
            && final(p).data@ == old(p).data@ && final(p).phase == old(p).phase,
        old(p).phase is Streaming && (event == PlayerEvent::Select || event == PlayerEvent::Missed)
            ==> r == PlayerAction::Rest && final(p).data@ == old(p).data@ && final(p).phase
            == old(p).phase,
        old(p).phase == Phase::Waiting && (event == PlayerEvent::Select || event is Chunk
            || event is TrackEnded) ==> r == PlayerAction::Rest && final(p).data@ == old(p).data@
            && final(p).phase == old(p).phase,
        old(p).phase == Phase::Waiting && event == PlayerEvent::Missed ==> r == PlayerAction::Rest
            && final(p).data@ == old(p).data@ && final(p).phase == Phase::Selecting,
{
}

/// A player that takes up what was saved holds the same tracks, place, position and
/// switches, and is off; one without anything saved is empty, off, at the start, and
/// loops without shuffling.
pub proof fn law_player_takes_up_what_was_saved(saved: Option<PlayerStateData>, r: PlayerState)
    requires
        call_ensures(PlayerState::new, (saved,), r),
    ensures
        r.phase == Phase::Selecting,
        !r.data.playing,
        saved matches Some(data) ==> r.data@ == (PlayerView { playing: false, ..data@ }),
        saved is None ==> {
            &&& r.data.playlist@.len() == 0
            &&& r.data.current_idx == 0
            &&& r.data.position_sec.bits == 0
            &&& r.data.loop_queue
            &&& !r.data.shuffle
        },
{
}

/// The player can be asked to take an event exactly where no index would run over: a
/// track that is to be played has to be in the playlist, and an index that is to be
/// counted on must not be the last there is.
pub proof fn law_player_tells_what_it_can_take(p: &PlayerState, event: PlayerEvent, r: bool)
    requires
        call_ensures(PlayerState::can_take, (p, event), r),
    ensures
        p.data.current_idx < p.data.playlist@.len() ==> r,
        p.phase == Phase::Selecting && event == PlayerEvent::Select && p.data.playing
            && 0 < p.data.playlist@.len() <= p.data.current_idx ==> !r,
        !r ==> p.data.playlist@.len() > 0 && (event == PlayerEvent::Select || p.data.current_idx
            == usize::MAX),
        p.phase is Streaming && event is TrackEnded && p.data.playlist@.len() > 0
            && p.data.current_idx == usize::MAX && !(p.data.loop_queue && p.data.shuffle
            && p.data.playlist@.len() > 1) ==> !r,
{
    assert(p.data.playlist@.len() == p.data.playlist.len());
}

/// Each word asks for its own command, with what that needs; a word that lacks it, and
/// any other word, asks for none.
pub proof fn law_each_word_asks_for_its_command(req: &ControlReq, r: Option<PlayerCommand>)
    requires
        call_ensures(control_player, (req,), r),
    ensures
        req.action@ == "play"@ <==> r == Some(PlayerCommand::Play),
        req.action@ == "pause"@ <==> r == Some(PlayerCommand::Pause),
        req.action@ == "next"@ <==> r == Some(PlayerCommand::Next),
        req.action@ == "prev"@ <==> r == Some(PlayerCommand::Prev),
        req.action@ == "toggle_loop"@ <==> r == Some(PlayerCommand::ToggleLoop),
        req.action@ == "toggle_shuffle"@ <==> r == Some(PlayerCommand::ToggleShuffle),
        req.action@ == "seek"@ ==> r == (match req.time {
            Some(t) => Some(PlayerCommand::SeekTime(t)),
            None => None,
        }),
        req.action@ == "seek_track"@ ==> r == (match req.index {
            Some(i) => Some(PlayerCommand::Seek(i)),
            None => None,
        }),
        req.action@ == "remove_track"@ ==> r == (match req.index {
            Some(i) => Some(PlayerCommand::RemoveTrack(i)),
            None => None,
        }),
        req.action@ == "move_track"@ ==> r == (match (req.index, req.to_index) {
            (Some(from), Some(to)) => Some(PlayerCommand::MoveTrack(from, to)),
            _ => None,
        }),
        r matches Some(PlayerCommand::SeekTime(_)) ==> req.action@ == "seek"@,
        r matches Some(PlayerCommand::Seek(_)) ==> req.action@ == "seek_track"@,
        r matches Some(PlayerCommand::RemoveTrack(_)) ==> req.action@ == "remove_track"@,
        r matches Some(PlayerCommand::MoveTrack(_, _)) ==> req.action@ == "move_track"@,
{
    reveal_strlit("play");
    reveal_strlit("pause");
    reveal_strlit("next");
    reveal_strlit("prev");
    reveal_strlit("seek");
    reveal_strlit("seek_track");
    reveal_strlit("remove_track");
    reveal_strlit("move_track");
    reveal_strlit("toggle_loop");
    reveal_strlit("toggle_shuffle");
    assert("play"@[1] == 'l' && "next"@[1] == 'e' && "prev"@[1] == 'r' && "seek"@[1] == 'e');
    assert("next"@[0] == 'n' && "seek"@[0] == 's');
    assert("seek_track"@[0] == 's' && "move_track"@[0] == 'm');
    assert("play"@.len() == 4 && "pause"@.len() == 5 && "next"@.len() == 4 && "prev"@.len() == 4);
    assert("seek"@.len() == 4 && "seek_track"@.len() == 10 && "remove_track"@.len() == 12);
    assert("move_track"@.len() == 10 && "toggle_loop"@.len() == 11);
    assert("toggle_shuffle"@.len() == 14);
}

/// Sending `Play` or a time within the track turns the player on at once where it has
/// tracks, sending `Pause` turns it off, and nothing else is changed before the player
/// loop obeys; any other command changes nothing.
pub proof fn law_sending_a_command_turns_the_player_on_or_off(
    data: &mut PlayerStateData,
    command: PlayerCommand,
    r: (),
)
    requires
        call_ensures(PlayerStateData::prime, (data, command), r),
    ensures
        final(data)@ == (PlayerView { playing: final(data).playing, ..old(data)@ }),
        final(data).playing == (if command == PlayerCommand::Play || command is SeekTime {
            old(data).playing || old(data).playlist@.len() > 0
        } else {
            old(data).playing && command != PlayerCommand::Pause
        }),
{
}

/// A field of an upload that was kept adds its own track behind all others, under its
/// id, name, path and length, and one that was not adds none; neither changes anything
/// else. Any field that was kept makes the upload a success.
pub proof fn law_kept_field_becomes_the_last_track(
    data: &mut PlayerStateData,
    field: Option<(Upload, Seconds)>,
    uploaded: bool,
    r: bool,
)
    requires
        call_ensures(PlayerStateData::take_field, (data, field, uploaded), r),
    ensures
        r == (uploaded || field is Some),
        final(data)@ == (PlayerView { playlist: final(data).playlist@, ..old(data)@ }),
        field is None ==> final(data).playlist@ == old(data).playlist@,
        field matches Some((upload, length)) ==> {
            let len = old(data).playlist@.len() as int;
            &&& final(data).playlist@.len() == len + 1
            &&& final(data).playlist@.take(len) == old(data).playlist@
            &&& final(data).playlist@[len].id == upload.id
            &&& final(data).playlist@[len].name == upload.name
            &&& final(data).playlist@[len].path == upload.path
            &&& final(data).playlist@[len].duration_sec == length
        },
{
    if field is Some {
        let len = old(data).playlist@.len() as int;
        assert(final(data).playlist@.take(len) =~= old(data).playlist@);
    }
}

/// Adding a track puts it behind all others and changes nothing else.
pub proof fn law_added_track_is_the_last(
    data: &mut PlayerStateData,
    upload: Upload,
    length: Seconds,
    r: (),
)
    requires
        call_ensures(PlayerStateData::add_track, (data, upload, length), r),
    ensures
        final(data)@ == (PlayerView {
            playlist: old(data).playlist@.push(
                Track { id: upload.id, name: upload.name, path: upload.path, duration_sec: length },
            ),
            ..old(data)@
        }),
{
}

/// An uploaded file is a track under its own name and identifier, kept in the folder of
/// uploads in a file that both name; without a name it is called "track".
pub proof fn law_upload_is_named_after_its_file(id: String, file_name: Option<String>, r: Upload)
    requires
        call_ensures(name_upload, (id, file_name), r),
    ensures
        r.id@ == id@,
        file_name matches Some(name) ==> r.name@ == name@ && r.path@ == "uploads/"@ + id@ + "_"@
            + name@,
        file_name is None ==> r.name@ == "track"@ && r.path@ == "uploads/"@ + id@ + "_"@ + "track"@,
{
}

/// A file that begins to be uploaded is named in the same way, under an identifier that
/// was drawn for it.
pub proof fn law_upload_draws_its_identifier(file_name: Option<String>, r: Upload)
    requires
        call_ensures(begin_upload, (file_name,), r),
    ensures
        drawn(r.id@) && is_random_uuid(r.id@),
        file_name matches Some(name) ==> r.name@ == name@ && r.path@ == "uploads/"@ + r.id@ + "_"@
            + name@,
        file_name is None ==> r.name@ == "track"@ && r.path@ == "uploads/"@ + r.id@ + "_"@
            + "track"@,
{
}

/// A player that has never been used is empty, off, at the start, and loops without
/// shuffling, as a queue does that was saved without saying so.
pub proof fn law_fresh_player_is_off(r: PlayerStateData, loops: bool)
    requires
        call_ensures(PlayerStateData::fresh, (), r),
        call_ensures(default_true, (), loops),
    ensures
        r.playlist@.len() == 0,
        r.current_idx == 0,
        !r.playing,
        r.position_sec.bits == 0,
        r.loop_queue && loops,
        !r.shuffle,
{
}

/// The status of an upload tells whether anything was kept.
pub proof fn law_upload_status_tells_success(uploaded: bool, r: u16)
    requires
        call_ensures(upload_status, (uploaded,), r),
    ensures
        r == 200 <==> uploaded,
        r == 400 <==> !uploaded,
{
}

/// The player is saved exactly where what would be saved differs from what was.
pub proof fn law_only_changes_are_saved(json: &str, last_json: &str, r: bool)
    requires
        call_ensures(needs_saving, (json, last_json), r),
    ensures
        !r <==> json@ == last_json@,
{
}

/// The place after another, going round.
proof fn lemma_next_place(at: int, len: int)
    requires
        0 <= at < len,
    ensures
        (at + 1) % len == (if at + 1 < len {
            at + 1
        } else {
            0
        }),
{
    if at + 1 < len {
        vstd::arithmetic::div_mod::lemma_small_mod((at + 1) as nat, len as nat);
    } else {
        vstd::arithmetic::div_mod::lemma_mod_self_0(len);
    }
}

/// A remainder is a place, and a place is its own remainder.
proof fn lemma_place(at: int, len: int)
    requires
        0 <= at,
        0 < len,
    ensures
        0 <= at % len < len,
        at < len ==> at % len == at,
{
    vstd::arithmetic::div_mod::lemma_mod_bound(at, len);
    if at < len {
        vstd::arithmetic::div_mod::lemma_small_mod(at as nat, len as nat);
    }
}

} // verus!

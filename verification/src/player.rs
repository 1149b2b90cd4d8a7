//! The background-music player: its playlist, the commands that steer it and the
//! loop that plays one track after another.

use crate::level::{Level, Seconds};
use vstd::prelude::*;

verus! {

/// A track of the playlist.
#[derive(Debug)]
pub struct Track {
    pub id: String,
    pub name: String,
    pub path: String,
    pub duration_sec: Seconds,
}

/// What the player remembers: the playlist and where it stands in it.
#[derive(Debug)]
pub struct PlayerStateData {
    pub playlist: Vec<Track>,
    pub current_idx: usize,
    pub playing: bool,
    pub position_sec: Seconds,
    pub loop_queue: bool,
    pub shuffle: bool,
}

/// What a listener can ask of the player.
#[derive(Clone, Copy, Debug, PartialEq, Eq, Structural)]
pub enum PlayerCommand {
    Play,
    Pause,
    Next,
    Prev,
    /// Go to the track with this index.
    Seek(usize),
    /// Go to this time within the track.
    SeekTime(Seconds),
    RemoveTrack(usize),
    MoveTrack(usize, usize),
    ToggleLoop,
    ToggleShuffle,
}

/// What the player loop is doing.
#[derive(Clone, Copy, Debug, PartialEq, Eq, Structural)]
pub enum Phase {
    /// Between two tracks: the next thing to do is to look for one.
    Selecting,
    /// A decoder is running; `fading_out` once it is to stop.
    Streaming { fading_out: bool },
    /// Nothing to play: waiting for a command.
    Waiting,
}

/// What can happen to the player loop.
#[derive(Clone, Copy, Debug, PartialEq, Eq, Structural)]
pub enum PlayerEvent {
    /// Look for a track to play.
    Select,
    /// A command arrived; `nanos` is a reading of the clock.
    Command { command: PlayerCommand, nanos: usize },
    /// Commands were lost before they could be read.
    Missed,
    /// The decoder delivered a chunk. `gain` is the gain of the fade after this
    /// chunk, `position` the time within the track after it.
    Chunk { gain: Level, position: Seconds },
    /// The decoder has no further chunk; `nanos` is a reading of the clock.
    TrackEnded { nanos: usize },
}

/// Where to start a decoder.
#[derive(Debug)]
pub struct Cue {
    pub path: String,
    pub position: Seconds,
}

/// What the player loop has to do after an event.
#[derive(Debug)]
pub enum PlayerAction {
    /// Nothing but to wait for the next event.
    Rest,
    /// Start a decoder.
    Start(Cue),
    /// Stop the decoder.
    Stop,
    /// Send the chunk on, at the gain of the fade.
    Emit,
    /// Delete this file.
    Delete(String),
}

/// The player: what it remembers, and what its loop is doing.
#[derive(Debug)]
pub struct PlayerState {
    pub data: PlayerStateData,
    pub phase: Phase,
}

/// The value of `PlayerStateData`.
pub struct PlayerView {
    pub playlist: Seq<Track>,
    pub current_idx: int,
    pub playing: bool,
    pub position_sec: Seconds,
    pub loop_queue: bool,
    pub shuffle: bool,
}

impl View for PlayerStateData {
    type V = PlayerView;

    open spec fn view(&self) -> PlayerView {
        PlayerView {
            playlist: self.playlist@,
            current_idx: self.current_idx as int,
            playing: self.playing,
            position_sec: self.position_sec,
            loop_queue: self.loop_queue,
            shuffle: self.shuffle,
        }
    }
}

impl PlayerView {
    /// The state of a player that has never been used.
    pub open spec fn fresh() -> PlayerView {
        PlayerView {
            playlist: Seq::empty(),
            current_idx: 0,
            playing: false,
            position_sec: Seconds::start(),
            loop_queue: true,
            shuffle: false,
        }
    }

    /// The current index is that of a track; 0 in an empty playlist.
    pub open spec fn settled(self) -> bool {
        0 <= self.current_idx && (self.current_idx < self.playlist.len() || (self.playlist.len()
            == 0 && self.current_idx == 0))
    }

    /// The next track is drawn, not counted.
    pub open spec fn draws(self) -> bool {
        self.shuffle && self.playlist.len() > 1
    }

    /// The index of the track that follows: the one after, going round at the end.
    /// Shuffling, it is the one that the clock points at, or the one after that
    /// where the clock points at the current one.
    pub open spec fn following(self, nanos: int) -> int {
        let len = self.playlist.len() as int;
        if self.draws() {
            if nanos % len == self.current_idx {
                (nanos % len + 1) % len
            } else {
                nanos % len
            }
        } else {
            (self.current_idx + 1) % len
        }
    }

    /// The index of the track before, going round at the start.
    pub open spec fn preceding(self) -> int {
        if self.current_idx == 0 {
            self.playlist.len() - 1
        } else {
            self.current_idx - 1
        }
    }

    /// Standing at the start of another track.
    pub open spec fn at_track(self, idx: int) -> PlayerView {
        PlayerView { current_idx: idx, position_sec: Seconds::start(), ..self }
    }

    /// Without the track at `idx`, the other tracks in their order. The current
    /// index follows its track; where that is the track that goes, it falls on the
    /// one after it, or on the first.
    pub open spec fn without(self, idx: int) -> PlayerView {
        let rest = self.playlist.remove(idx);
        PlayerView {
            playlist: rest,
            current_idx: if self.current_idx > idx {
                self.current_idx - 1
            } else if self.current_idx == idx && rest.len() > 0 {
                idx % (rest.len() as int)
            } else {
                self.current_idx
            },
            ..self
        }
    }

    /// With the track at `from` taken out and put back at `to`. The current index
    /// follows its track.
    pub open spec fn moved(self, from: int, to: int) -> PlayerView {
        PlayerView {
            playlist: self.playlist.remove(from).insert(to, self.playlist[from]),
            current_idx: if self.current_idx == from {
                to
            } else if from < self.current_idx <= to {
                self.current_idx - 1
            } else if to <= self.current_idx < from {
                self.current_idx + 1
            } else {
                self.current_idx
            },
            ..self
        }
    }

    /// The effect of a command that arrives while a track plays.
    pub open spec fn commanded(self, command: PlayerCommand, nanos: int) -> PlayerView {
        let len = self.playlist.len();
        match command {
            PlayerCommand::Play => self,
            PlayerCommand::Pause => PlayerView { playing: false, ..self },
            PlayerCommand::Next => if len > 0 {
                self.at_track(self.following(nanos))
            } else {
                self
            },
            PlayerCommand::Prev => if len > 0 {
                self.at_track(self.preceding())
            } else {
                self
            },
            PlayerCommand::Seek(idx) => if len > 0 {
                self.at_track(idx as int % (len as int))
            } else {
                self
            },
            PlayerCommand::SeekTime(t) => PlayerView { position_sec: t.from_start(), ..self },
            PlayerCommand::RemoveTrack(idx) => if idx < len {
                if len == 1 && self.current_idx == idx {
                    PlayerView { playing: false, ..self.without(idx as int) }
                } else {
                    self.without(idx as int)
                }
            } else {
                self
            },
            PlayerCommand::MoveTrack(from, to) => if from < len && to < len {
                self.moved(from as int, to as int)
            } else {
                self
            },
            PlayerCommand::ToggleLoop => PlayerView { loop_queue: !self.loop_queue, ..self },
            PlayerCommand::ToggleShuffle => PlayerView { shuffle: !self.shuffle, ..self },
        }
    }

    /// Whether the running track is to fade out after a command.
    pub open spec fn fades(self, fading_out: bool, command: PlayerCommand) -> bool {
        match command {
            PlayerCommand::Play => false,
            PlayerCommand::Pause
            | PlayerCommand::Next
            | PlayerCommand::Prev
            | PlayerCommand::Seek(_)
            | PlayerCommand::SeekTime(_) => true,
            PlayerCommand::RemoveTrack(idx) => fading_out || (idx < self.playlist.len()
                && self.current_idx == idx),
            PlayerCommand::MoveTrack(_, _)
            | PlayerCommand::ToggleLoop
            | PlayerCommand::ToggleShuffle => fading_out,
        }
    }

    /// The effect of a command that arrives while nothing plays.
    pub open spec fn woken(self, command: PlayerCommand) -> PlayerView {
        let len = self.playlist.len();
        match command {
            PlayerCommand::Play => PlayerView { playing: true, ..self },
            PlayerCommand::Seek(idx) => PlayerView {
                playing: true,
                ..self.at_track(
                    if len > 0 {
                        idx as int % (len as int)
                    } else {
                        0
                    },
                )
            },
            PlayerCommand::RemoveTrack(idx) => if idx < len {
                self.without(idx as int)
            } else {
                self
            },
            PlayerCommand::MoveTrack(from, to) => if from < len && to < len {
                self.moved(from as int, to as int)
            } else {
                self
            },
            PlayerCommand::ToggleLoop => PlayerView { loop_queue: !self.loop_queue, ..self },
            PlayerCommand::ToggleShuffle => PlayerView { shuffle: !self.shuffle, ..self },
            PlayerCommand::Pause
            | PlayerCommand::Next
            | PlayerCommand::Prev
            | PlayerCommand::SeekTime(_) => self,
        }
    }

    /// What a command has deleted from disk: the file of the track that it removes.
    pub open spec fn discarded(self, command: PlayerCommand) -> Option<String> {
        match command {
            PlayerCommand::RemoveTrack(idx) => if idx < self.playlist.len() {
                Some(self.playlist[idx as int].path)
            } else {
                None
            },
            _ => None,
        }
    }

    /// After the last chunk of a track: on to the one that follows; at the end of
    /// a playlist that does not loop, stopped at the start.
    pub open spec fn ended(self, nanos: int) -> PlayerView {
        if self.playlist.len() == 0 {
            self
        } else if self.loop_queue {
            PlayerView { current_idx: self.following(nanos), ..self }
        } else if self.current_idx + 1 < self.playlist.len() {
            PlayerView { current_idx: self.current_idx + 1, ..self }
        } else {
            PlayerView { playing: false, position_sec: Seconds::start(), ..self }
        }
    }

    /// There is a track to play now.
    pub open spec fn has_cue(self) -> bool {
        self.playing && self.playlist.len() > 0
    }

    /// After an event, in a phase.
    pub open spec fn after(self, phase: Phase, event: PlayerEvent) -> PlayerView {
        match (phase, event) {
            (Phase::Selecting, PlayerEvent::Select) => PlayerView {
                playing: self.has_cue(),
                ..self
            },
            (Phase::Streaming { .. }, PlayerEvent::Command { command, nanos }) => self.commanded(
                command,
                nanos as int,
            ),
            (Phase::Streaming { fading_out }, PlayerEvent::Chunk { gain, position }) => {
                if fading_out && gain.inaudible() {
                    self
                } else {
                    PlayerView { position_sec: position, ..self }
                }
            },
            (Phase::Streaming { .. }, PlayerEvent::TrackEnded { nanos }) => self.ended(
                nanos as int,
            ),
            (Phase::Waiting, PlayerEvent::Command { command, .. }) => self.woken(command),
            _ => self,
        }
    }

    /// The phase after an event.
    pub open spec fn next_phase(self, phase: Phase, event: PlayerEvent) -> Phase {
        match (phase, event) {
            (Phase::Selecting, PlayerEvent::Select) => if self.has_cue() {
                Phase::Streaming { fading_out: false }
            } else {
                Phase::Waiting
            },
            (
                Phase::Streaming { fading_out },
                PlayerEvent::Command { command, .. },
            ) => Phase::Streaming { fading_out: self.fades(fading_out, command) },
            (Phase::Streaming { fading_out }, PlayerEvent::Chunk { gain, .. }) => {
                if fading_out && gain.inaudible() {
                    Phase::Selecting
                } else {
                    phase
                }
            },
            (Phase::Streaming { .. }, PlayerEvent::TrackEnded { .. }) => Phase::Selecting,
            (Phase::Waiting, PlayerEvent::Command { .. }) => Phase::Selecting,
            (Phase::Waiting, PlayerEvent::Missed) => Phase::Selecting,
            _ => phase,
        }
    }

    /// What is to be done after an event.
    pub open spec fn action(self, phase: Phase, event: PlayerEvent) -> PlayerAction {
        match (phase, event) {
            (Phase::Selecting, PlayerEvent::Select) => if self.has_cue() {
                PlayerAction::Start(
                    Cue {
                        path: self.playlist[self.current_idx].path,
                        position: self.position_sec,
                    },
                )
            } else {
                PlayerAction::Rest
            },
            (Phase::Streaming { fading_out }, PlayerEvent::Chunk { gain, .. }) => {
                if fading_out && gain.inaudible() {
                    PlayerAction::Stop
                } else {
                    PlayerAction::Emit
                }
            },
            (Phase::Streaming { .. }, PlayerEvent::TrackEnded { .. }) => PlayerAction::Stop,
            (Phase::Streaming { .. }, PlayerEvent::Command { command, .. })
            | (Phase::Waiting, PlayerEvent::Command { command, .. }) => match self.discarded(
                command,
            ) {
                Some(path) => PlayerAction::Delete(path),
                None => PlayerAction::Rest,
            },
            _ => PlayerAction::Rest,
        }
    }

    /// The index after the current one can be counted.
    pub open spec fn can_advance(self) -> bool {
        self.current_idx < usize::MAX
    }

    /// The player can take an event in a phase: a track that is to be played
    /// exists, and an index that is to be counted on has a successor.
    pub open spec fn accepts(self, phase: Phase, event: PlayerEvent) -> bool {
        match (phase, event) {
            (Phase::Selecting, PlayerEvent::Select) => self.has_cue() ==> self.current_idx
                < self.playlist.len(),
            (
                Phase::Streaming { .. },
                PlayerEvent::Command { command: PlayerCommand::Next, .. },
            ) => self.playlist.len() > 0 && !self.draws() ==> self.can_advance(),
            (Phase::Streaming { .. }, PlayerEvent::TrackEnded { .. }) => self.playlist.len() > 0
                && !(self.loop_queue && self.draws()) ==> self.can_advance(),
            _ => true,
        }
    }
}

impl PlayerStateData {
    /// The state of a player that has never been used.
    pub fn fresh() -> (r: PlayerStateData)
        ensures
            r@ == PlayerView::fresh(),
    {
        PlayerStateData {
            playlist: Vec::new(),
            current_idx: 0,
            playing: false,
            position_sec: Seconds::zero(),
            loop_queue: default_true(),
            shuffle: false,
        }
    }

    /// The index of the track that follows; `nanos` is a reading of the clock.
    fn following_index(&self, nanos: usize) -> (r: usize)
        requires
            self@.playlist.len() > 0,
            !self@.draws() ==> self@.can_advance(),
        ensures
            r == self@.following(nanos as int),
    {
        let len: usize = self.playlist.len();
        if self.shuffle && len > 1 {
            let drawn: usize = nanos % len;
            if drawn == self.current_idx {
                (drawn + 1) % len
            } else {
                drawn
            }
        } else {
            (self.current_idx + 1) % len
        }
    }

    /// Goes to the start of another track.
    fn go_to(&mut self, idx: usize)
        ensures
            final(self)@ == old(self)@.at_track(idx as int),
    {
        self.current_idx = idx;
        self.position_sec = Seconds::zero();
    }

    /// Takes a track out of the playlist, and gives back the path of its file.
    fn remove_track(&mut self, idx: usize) -> (r: Option<String>)
        ensures
            r == old(self)@.discarded(PlayerCommand::RemoveTrack(idx)),
            final(self)@ == (if idx < old(self)@.playlist.len() {
                old(self)@.without(idx as int)
            } else {
                old(self)@
            }),
    {
        if idx >= self.playlist.len() {
            return None;
        }
        let removed: Track = self.playlist.remove(idx);
        if self.current_idx == idx {
            if self.playlist.len() > 0 {
                self.current_idx = self.current_idx % self.playlist.len();
            }
        } else if self.current_idx > idx {
            self.current_idx = self.current_idx - 1;
        }
        Some(removed.path)
    }

    /// Moves a track to another place in the playlist.
    fn move_track(&mut self, from: usize, to: usize)
        ensures
            final(self)@ == (if from < old(self)@.playlist.len() && to
                < old(self)@.playlist.len() {
                old(self)@.moved(from as int, to as int)
            } else {
                old(self)@
            }),
    {
        if from < self.playlist.len() && to < self.playlist.len() {
            let track: Track = self.playlist.remove(from);
            self.playlist.insert(to, track);
            if self.current_idx == from {
                self.current_idx = to;
            } else if from < self.current_idx && to >= self.current_idx {
                self.current_idx = self.current_idx - 1;
            } else if from > self.current_idx && to <= self.current_idx {
                self.current_idx = self.current_idx + 1;
            }
        }
    }

    /// Obeys a command that arrives while a track plays; gives back the file that
    /// is to be deleted.
    fn obey(&mut self, command: PlayerCommand, nanos: usize) -> (r: Option<String>)
        requires
            old(self)@.accepts(
                Phase::Streaming { fading_out: false },
                PlayerEvent::Command { command, nanos },
            ),
        ensures
            r == old(self)@.discarded(command),
            final(self)@ == old(self)@.commanded(command, nanos as int),
    {
        match command {
            PlayerCommand::Play => {},
            PlayerCommand::Pause => {
                self.playing = false;
            },
            PlayerCommand::Next => {
                if self.playlist.len() > 0 {
                    let idx: usize = self.following_index(nanos);
                    self.go_to(idx);
                }
            },
            PlayerCommand::Prev => {
                if self.playlist.len() > 0 {
                    let idx: usize = if self.current_idx == 0 {
                        self.playlist.len() - 1
                    } else {
                        self.current_idx - 1
                    };
                    self.go_to(idx);
                }
            },
            PlayerCommand::Seek(idx) => {
                if self.playlist.len() > 0 {
                    let wrapped: usize = idx % self.playlist.len();
                    self.go_to(wrapped);
                }
            },
            PlayerCommand::SeekTime(t) => {
                self.position_sec = t.not_negative();
            },
            PlayerCommand::RemoveTrack(idx) => {
                if idx < self.playlist.len() {
                    let last: bool = self.playlist.len() == 1 && self.current_idx == idx;
                    let path: Option<String> = self.remove_track(idx);
                    if last {
                        self.playing = false;
                    }
                    return path;
                }
            },
            PlayerCommand::MoveTrack(from, to) => {
                self.move_track(from, to);
            },
            PlayerCommand::ToggleLoop => {
                self.loop_queue = !self.loop_queue;
            },
            PlayerCommand::ToggleShuffle => {
                self.shuffle = !self.shuffle;
            },
        }
        None
    }

    /// Whether the running track is to fade out after a command.
    fn fades_after(&self, fading_out: bool, command: PlayerCommand) -> (r: bool)
        ensures
            r == self@.fades(fading_out, command),
    {
        match command {
            PlayerCommand::Play => false,
            PlayerCommand::Pause => true,
            PlayerCommand::Next => true,
            PlayerCommand::Prev => true,
            PlayerCommand::Seek(_) => true,
            PlayerCommand::SeekTime(_) => true,
            PlayerCommand::RemoveTrack(idx) => fading_out || (idx < self.playlist.len()
                && self.current_idx == idx),
            PlayerCommand::MoveTrack(_, _) => fading_out,
            PlayerCommand::ToggleLoop => fading_out,
            PlayerCommand::ToggleShuffle => fading_out,
        }
    }

    /// Obeys a command that arrives while nothing plays; gives back the file that
    /// is to be deleted.
    fn wake(&mut self, command: PlayerCommand) -> (r: Option<String>)
        ensures
            r == old(self)@.discarded(command),
            final(self)@ == old(self)@.woken(command),
    {
        match command {
            PlayerCommand::Play => {
                self.playing = true;
            },
            PlayerCommand::Seek(idx) => {
                let wrapped: usize = if self.playlist.len() > 0 {
                    idx % self.playlist.len()
                } else {
                    0
                };
                self.go_to(wrapped);
                self.playing = true;
            },
            PlayerCommand::RemoveTrack(idx) => {
                return self.remove_track(idx);
            },
            PlayerCommand::MoveTrack(from, to) => {
                self.move_track(from, to);
            },
            PlayerCommand::ToggleLoop => {
                self.loop_queue = !self.loop_queue;
            },
            PlayerCommand::ToggleShuffle => {
                self.shuffle = !self.shuffle;
            },
            PlayerCommand::Pause => {},
            PlayerCommand::Next => {},
            PlayerCommand::Prev => {},
            PlayerCommand::SeekTime(_) => {},
        }
        None
    }

    /// Goes on from the last chunk of a track.
    fn finish_track(&mut self, nanos: usize)
        requires
            old(self)@.accepts(
                Phase::Streaming { fading_out: false },
                PlayerEvent::TrackEnded { nanos },
            ),
        ensures
            final(self)@ == old(self)@.ended(nanos as int),
    {
        if self.playlist.len() > 0 {
            if self.loop_queue {
                self.current_idx = self.following_index(nanos);
            } else if self.current_idx + 1 < self.playlist.len() {
                self.current_idx = self.current_idx + 1;
            } else {
                self.playing = false;
                self.position_sec = Seconds::zero();
            }
        }
    }

    /// Looks for a track to play. Without one, the player is no longer playing.
    fn cue(&mut self) -> (r: Option<Cue>)
        requires
            old(self)@.has_cue() ==> old(self)@.current_idx < old(self)@.playlist.len(),
        ensures
            final(self)@ == (PlayerView { playing: old(self)@.has_cue(), ..old(self)@ }),
            r == (if old(self)@.has_cue() {
                Some(
                    Cue {
                        path: old(self)@.playlist[old(self)@.current_idx].path,
                        position: old(self)@.position_sec,
                    },
                )
            } else {
                None
            }),
    {
        if self.playing && self.playlist.len() > 0 {
            Some(
                Cue {
                    path: self.playlist[self.current_idx].path.clone(),
                    position: self.position_sec,
                },
            )
        } else {
            self.playing = false;
            None
        }
    }
}

impl PlayerState {
    /// A player that takes up what was saved, paused; without anything saved, a
    /// fresh one.
    pub fn new(saved: Option<PlayerStateData>) -> (r: PlayerState)
        ensures
            r.phase == Phase::Selecting,
            r.data@ == (match saved {
                Some(data) => PlayerView { playing: false, ..data@ },
                None => PlayerView::fresh(),
            }),
    {
        let data: PlayerStateData = match saved {
            Some(kept) => {
                let mut kept = kept;
                kept.playing = false;
                kept
            },
            None => PlayerStateData::fresh(),
        };
        PlayerState { data, phase: Phase::Selecting }
    }

    /// Whether the player can take an event as it stands.
    pub fn can_take(&self, event: PlayerEvent) -> (r: bool)
        ensures
            r == self.data@.accepts(self.phase, event),
    {
        let len: usize = self.data.playlist.len();
        let draws: bool = self.data.shuffle && len > 1;
        let can_advance: bool = self.data.current_idx < usize::MAX;
        match (self.phase, event) {
            (Phase::Selecting, PlayerEvent::Select) => {
                !self.data.playing || len == 0 || self.data.current_idx < len
            },
            (
                Phase::Streaming { .. },
                PlayerEvent::Command { command: PlayerCommand::Next, .. },
            ) => len == 0 || draws || can_advance,
            (Phase::Streaming { .. }, PlayerEvent::TrackEnded { .. }) => {
                len == 0 || (self.data.loop_queue && draws) || can_advance
            },
            _ => true,
        }
    }

    /// One turn of the player loop.
    pub fn step(&mut self, event: PlayerEvent) -> (r: PlayerAction)
        requires
            old(self).data@.accepts(old(self).phase, event),
        ensures
            final(self).data@ == old(self).data@.after(old(self).phase, event),
            final(self).phase == old(self).data@.next_phase(old(self).phase, event),
            r == old(self).data@.action(old(self).phase, event),
    {
        match self.phase {
            Phase::Selecting => match event {
                PlayerEvent::Select => match self.data.cue() {
                    Some(cue) => {
                        self.phase = Phase::Streaming { fading_out: false };
                        PlayerAction::Start(cue)
                    },
                    None => {
                        self.phase = Phase::Waiting;
                        PlayerAction::Rest
                    },
                },
                _ => PlayerAction::Rest,
            },
            Phase::Streaming { fading_out } => match event {
                PlayerEvent::Command { command, nanos } => {
                    let fades: bool = self.data.fades_after(fading_out, command);
                    self.phase = Phase::Streaming { fading_out: fades };
                    delete_action(self.data.obey(command, nanos))
                },
                PlayerEvent::Chunk { gain, position } => {
                    if fading_out && gain.is_inaudible() {
                        self.phase = Phase::Selecting;
                        PlayerAction::Stop
                    } else {
                        self.data.position_sec = position;
                        PlayerAction::Emit
                    }
                },
                PlayerEvent::TrackEnded { nanos } => {
                    self.data.finish_track(nanos);
                    self.phase = Phase::Selecting;
                    PlayerAction::Stop
                },
                _ => PlayerAction::Rest,
            },
            Phase::Waiting => match event {
                PlayerEvent::Command { command, .. } => {
                    self.phase = Phase::Selecting;
                    delete_action(self.data.wake(command))
                },
                PlayerEvent::Missed => {
                    self.phase = Phase::Selecting;
                    PlayerAction::Rest
                },
                _ => PlayerAction::Rest,
            },
        }
    }
}

/// The action that deletes a file, where there is one to delete.
fn delete_action(path: Option<String>) -> (r: PlayerAction)
    ensures
        r == (match path {
            Some(p) => PlayerAction::Delete(p),
            None => PlayerAction::Rest,
        }),
{
    match path {
        Some(p) => PlayerAction::Delete(p),
        None => PlayerAction::Rest,
    }
}

/// The setting of a queue that was saved without one: it loops.
pub fn default_true() -> (r: bool)
    ensures
        r,
{
    true
}

impl PlayerView {
    /// After `n` tracks in a row were played to their end.
    pub open spec fn after_tracks(self, n: nat) -> PlayerView
        decreases n,
    {
        if n == 0 {
            self
        } else {
            self.after_tracks((n - 1) as nat).ended(0)
        }
    }
}

/// A player whose current index is that of a track accepts every event in every
/// phase, and its current index is that of a track afterwards. Its position stays a
/// number not below 0.0, whatever is asked of it: no command and no end of a track
/// takes it below, nor a chunk that is not itself said to end below.
pub proof fn law_player_stays_settled(player: PlayerView, phase: Phase, event: PlayerEvent)
    requires
        player.settled(),
        player.playlist.len() <= usize::MAX,
    ensures
        player.accepts(phase, event),
        player.after(phase, event).settled(),
        player.after(phase, event).playlist.len() <= player.playlist.len(),
        player.position_sec.is_played() && (event matches PlayerEvent::Chunk { position, .. }
            ==> position.is_played()) ==> player.after(phase, event).position_sec.is_played(),
{
}

/// A fresh player is settled; a player restored from a settled one is settled too,
/// and neither is playing.
pub proof fn law_restored_player_is_settled(saved: Option<PlayerStateData>)
    requires
        saved matches Some(data) ==> data@.settled(),
    ensures
        PlayerView::fresh().settled(),
        !PlayerView::fresh().playing,
        PlayerView::fresh().position_sec.is_played(),
        saved matches Some(data) ==> (PlayerView { playing: false, ..data@ }).settled(),
{
}

/// Moving a track changes only the order of the playlist: the same tracks are in
/// it, the track that moved stands where it was sent, and the current index is
/// still that of the same track.
pub proof fn law_move_keeps_the_tracks(player: PlayerView, from: int, to: int)
    requires
        player.settled(),
        0 <= from < player.playlist.len(),
        0 <= to < player.playlist.len(),
    ensures
        player.moved(from, to).playlist.len() == player.playlist.len(),
        player.moved(from, to).playlist.to_multiset() == player.playlist.to_multiset(),
        player.moved(from, to).playlist[to] == player.playlist[from],
        player.moved(from, to).playlist[player.moved(from, to).current_idx]
            == player.playlist[player.current_idx],
{
    broadcast use vstd::seq_lib::group_to_multiset_ensures;

    let rest = player.playlist.remove(from);
    assert(rest.insert(to, player.playlist[from]).to_multiset() =~= player.playlist.to_multiset());
}

/// Moving a track and moving it back leaves the player as it was.
pub proof fn law_move_back_undoes_move(player: PlayerView, from: int, to: int)
    requires
        player.settled(),
        0 <= from < player.playlist.len(),
        0 <= to < player.playlist.len(),
    ensures
        player.moved(from, to).moved(to, from) == player,
{
    let there = player.moved(from, to);
    let back = there.moved(to, from);
    assert(there.playlist.remove(to) =~= player.playlist.remove(from));
    assert(back.playlist =~= player.playlist);
}

/// Removing a track other than the current one leaves the current one current, and
/// the other tracks in their order.
pub proof fn law_remove_keeps_the_current_track(player: PlayerView, idx: int)
    requires
        player.settled(),
        0 <= idx < player.playlist.len(),
        idx != player.current_idx,
    ensures
        player.without(idx).playlist[player.without(idx).current_idx]
            == player.playlist[player.current_idx],
        player.without(idx).playlist == player.playlist.subrange(0, idx) + player.playlist.subrange(
            idx + 1,
            player.playlist.len() as int,
        ),
{
    assert(player.playlist.remove(idx) =~= player.playlist.subrange(0, idx)
        + player.playlist.subrange(idx + 1, player.playlist.len() as int));
}

/// Removing the current track makes the one after it current, or the first where
/// there is none after it.
pub proof fn law_remove_current_goes_on(player: PlayerView)
    requires
        player.settled(),
        player.playlist.len() > 1,
    ensures
        player.without(player.current_idx).playlist[player.without(player.current_idx).current_idx]
            == player.playlist[if player.current_idx + 1 < player.playlist.len() {
            player.current_idx + 1
        } else {
            0
        }],
{
    let idx = player.current_idx;
    let rest = player.playlist.remove(idx);
    if idx + 1 < player.playlist.len() {
        assert(idx % (rest.len() as int) == idx) by (nonlinear_arith)
            requires
                0 <= idx < rest.len(),
        ;
    } else {
        assert(idx % (rest.len() as int) == 0) by (nonlinear_arith)
            requires
                idx == rest.len(),
                idx > 0,
        ;
    }
}

/// Without shuffling, going to the next track and back again returns to the start
/// of the same track, and so does going back and then on.
pub proof fn law_next_and_prev_are_inverse(player: PlayerView, nanos: int, later: int)
    requires
        player.settled(),
        player.playlist.len() > 0,
        !player.draws(),
    ensures
        player.commanded(PlayerCommand::Next, nanos).commanded(PlayerCommand::Prev, later)
            == player.at_track(player.current_idx),
        player.commanded(PlayerCommand::Prev, nanos).commanded(PlayerCommand::Next, later)
            == player.at_track(player.current_idx),
{
    let len = player.playlist.len() as int;
    let idx = player.current_idx;
    if idx + 1 < len {
        assert((idx + 1) % len == idx + 1) by (nonlinear_arith)
            requires
                0 <= idx + 1 < len,
        ;
    } else {
        assert((idx + 1) % len == 0) by (nonlinear_arith)
            requires
                idx + 1 == len,
                len > 0,
        ;
    }
    assert((len - 1 + 1) % len == 0) by (nonlinear_arith)
        requires
            len > 0,
    ;
    assert(idx % len == idx) by (nonlinear_arith)
        requires
            0 <= idx < len,
    ;
}

/// Shuffling among several tracks never draws the current one.
pub proof fn law_shuffle_never_repeats(player: PlayerView, nanos: int)
    requires
        player.settled(),
        player.draws(),
    ensures
        player.following(nanos) != player.current_idx,
        0 <= player.following(nanos) < player.playlist.len(),
{
    let len = player.playlist.len() as int;
    let drawn = nanos % len;
    assert(0 <= drawn < len) by (nonlinear_arith)
        requires
            drawn == nanos % len,
            len > 0,
    ;
    if drawn + 1 < len {
        assert((drawn + 1) % len == drawn + 1) by (nonlinear_arith)
            requires
                0 <= drawn + 1 < len,
        ;
    } else {
        assert((drawn + 1) % len == 0) by (nonlinear_arith)
            requires
                drawn + 1 == len,
                len > 1,
        ;
    }
}

/// Shuffling, every other track can be drawn: some reading of the clock points at it.
pub proof fn law_shuffle_reaches_every_track(player: PlayerView, idx: int)
    requires
        player.settled(),
        player.draws(),
        0 <= idx < player.playlist.len(),
        idx != player.current_idx,
    ensures
        player.following(idx) == idx,
{
    let len = player.playlist.len() as int;
    assert(idx % len == idx) by (nonlinear_arith)
        requires
            0 <= idx < len,
    ;
}

/// A queue that loops and does not shuffle plays its tracks in order and goes
/// round: after `n` tracks it stands `n` places on, and it is still playing.
pub proof fn law_looping_queue_goes_round(player: PlayerView, n: nat)
    requires
        player.settled(),
        player.playlist.len() > 0,
        player.loop_queue,
        !player.draws(),
    ensures
        player.after_tracks(n) == (PlayerView {
            current_idx: (player.current_idx + n) % (player.playlist.len() as int),
            ..player
        }),
    decreases n,
{
    let len = player.playlist.len() as int;
    if n == 0 {
        assert(player.current_idx % len == player.current_idx) by (nonlinear_arith)
            requires
                0 <= player.current_idx < len,
        ;
    } else {
        law_looping_queue_goes_round(player, (n - 1) as nat);
        vstd::arithmetic::div_mod::lemma_add_mod_noop(player.current_idx + n - 1, 1, len);
        if len > 1 {
            assert(1int % len == 1) by (nonlinear_arith)
                requires
                    len > 1,
            ;
        } else {
            assert(1int % len == 0) by (nonlinear_arith)
                requires
                    len == 1,
            ;
            assert((player.current_idx + n - 1) % len == 0) by (nonlinear_arith)
                requires
                    len == 1,
            ;
        }
    }
}

/// A queue that does not loop stops after its last track, at the start.
pub proof fn law_last_track_stops(player: PlayerView, nanos: usize)
    requires
        player.settled(),
        player.playlist.len() > 0,
        !player.loop_queue,
        player.current_idx == player.playlist.len() - 1,
    ensures
        ({
            let event = PlayerEvent::TrackEnded { nanos };
            let stopped = player.after(Phase::Streaming { fading_out: false }, event);
            &&& !stopped.playing
            &&& stopped.position_sec == Seconds::start()
            &&& stopped.next_phase(Phase::Selecting, PlayerEvent::Select) == Phase::Waiting
        }),
{
}

/// Toggling twice leaves the player as it was, whether it plays or not.
pub proof fn law_toggles_undo_themselves(player: PlayerView, nanos: int)
    ensures
        player.commanded(PlayerCommand::ToggleLoop, nanos).commanded(
            PlayerCommand::ToggleLoop,
            nanos,
        ) == player,
        player.commanded(PlayerCommand::ToggleShuffle, nanos).commanded(
            PlayerCommand::ToggleShuffle,
            nanos,
        ) == player,
        player.woken(PlayerCommand::ToggleLoop).woken(PlayerCommand::ToggleLoop) == player,
        player.woken(PlayerCommand::ToggleShuffle).woken(PlayerCommand::ToggleShuffle) == player,
{
}

/// A pause takes effect once the fade has died away: the decoder stops at the first
/// inaudible chunk, and the loop then waits for a command.
pub proof fn law_pause_fades_then_waits(
    player: PlayerView,
    fading_out: bool,
    nanos: usize,
    gain: Level,
    position: Seconds,
)
    requires
        gain.inaudible(),
    ensures
        ({
            let command = PlayerEvent::Command { command: PlayerCommand::Pause, nanos };
            let chunk = PlayerEvent::Chunk { gain, position };
            let streaming = Phase::Streaming { fading_out };
            let paused = player.after(streaming, command);
            let fading = player.next_phase(streaming, command);
            let silent = paused.after(fading, chunk);
            &&& paused.action(fading, chunk) == PlayerAction::Stop
            &&& paused.next_phase(fading, chunk) == Phase::Selecting
            &&& silent.next_phase(Phase::Selecting, PlayerEvent::Select) == Phase::Waiting
        }),
{
}

/// A running track that is not fading out sends on every chunk, whatever its gain,
/// and `Play` ends a fade.
pub proof fn law_playing_track_is_not_cut(
    player: PlayerView,
    nanos: usize,
    gain: Level,
    position: Seconds,
)
    ensures
        ({
            let command = PlayerEvent::Command { command: PlayerCommand::Play, nanos };
            let chunk = PlayerEvent::Chunk { gain, position };
            let playing = Phase::Streaming { fading_out: false };
            &&& player.next_phase(Phase::Streaming { fading_out: true }, command) == playing
            &&& player.action(playing, chunk) == PlayerAction::Emit
            &&& player.next_phase(playing, chunk) == playing
        }),
{
}

/// `Play` while waiting starts the current track where it was left; in an empty
/// playlist it leads back to waiting.
pub proof fn law_play_starts_the_current_track(player: PlayerView, nanos: usize)
    requires
        player.settled(),
    ensures
        ({
            let command = PlayerEvent::Command { command: PlayerCommand::Play, nanos };
            let woken = player.after(Phase::Waiting, command);
            let phase = player.next_phase(Phase::Waiting, command);
            &&& phase == Phase::Selecting
            &&& woken.action(phase, PlayerEvent::Select) == (if player.playlist.len() > 0 {
                PlayerAction::Start(
                    Cue {
                        path: player.playlist[player.current_idx].path,
                        position: player.position_sec,
                    },
                )
            } else {
                PlayerAction::Rest
            })
            &&& woken.next_phase(phase, PlayerEvent::Select) == (if player.playlist.len() > 0 {
                Phase::Streaming { fading_out: false }
            } else {
                Phase::Waiting
            })
        }),
{
}

} // verus!

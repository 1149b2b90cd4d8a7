//! What the web interface asks of the player: commands and uploads.

use crate::ids::{draw, drawn, is_random_uuid};
use crate::level::Seconds;
use crate::player::{PlayerCommand, PlayerStateData, PlayerView, Track};
use crate::text::{join, same_text};
use vstd::prelude::*;

verus! {

/// A request to steer the player.
#[derive(Debug)]
pub struct ControlReq {
    pub action: String,
    pub index: Option<usize>,
    pub to_index: Option<usize>,
    pub time: Option<Seconds>,
}

/// A file that is being uploaded: the track that it will be.
#[derive(Debug)]
pub struct Upload {
    pub id: String,
    pub name: String,
    pub path: String,
}

/// The command that an action names, with what it needs.
pub open spec fn requested(
    action: Seq<char>,
    index: Option<usize>,
    to_index: Option<usize>,
    time: Option<Seconds>,
) -> Option<PlayerCommand> {
    if action == "play"@ {
        Some(PlayerCommand::Play)
    } else if action == "pause"@ {
        Some(PlayerCommand::Pause)
    } else if action == "next"@ {
        Some(PlayerCommand::Next)
    } else if action == "prev"@ {
        Some(PlayerCommand::Prev)
    } else if action == "seek"@ {
        match time {
            Some(t) => Some(PlayerCommand::SeekTime(t)),
            None => None,
        }
    } else if action == "seek_track"@ {
        match index {
            Some(i) => Some(PlayerCommand::Seek(i)),
            None => None,
        }
    } else if action == "remove_track"@ {
        match index {
            Some(i) => Some(PlayerCommand::RemoveTrack(i)),
            None => None,
        }
    } else if action == "move_track"@ {
        match (index, to_index) {
            (Some(from), Some(to)) => Some(PlayerCommand::MoveTrack(from, to)),
            _ => None,
        }
    } else if action == "toggle_loop"@ {
        Some(PlayerCommand::ToggleLoop)
    } else if action == "toggle_shuffle"@ {
        Some(PlayerCommand::ToggleShuffle)
    } else {
        None
    }
}

/// The command that a request asks for; `None` for a bad request.
pub fn control_player(req: &ControlReq) -> (r: Option<PlayerCommand>)
    ensures
        r == requested(req.action@, req.index, req.to_index, req.time),
{
    let action: &str = req.action.as_str();
    if same_text(action, "play") {
        Some(PlayerCommand::Play)
    } else if same_text(action, "pause") {
        Some(PlayerCommand::Pause)
    } else if same_text(action, "next") {
        Some(PlayerCommand::Next)
    } else if same_text(action, "prev") {
        Some(PlayerCommand::Prev)
    } else if same_text(action, "seek") {
        match req.time {
            Some(t) => Some(PlayerCommand::SeekTime(t)),
            None => None,
        }
    } else if same_text(action, "seek_track") {
        match req.index {
            Some(i) => Some(PlayerCommand::Seek(i)),
            None => None,
        }
    } else if same_text(action, "remove_track") {
        match req.index {
            Some(i) => Some(PlayerCommand::RemoveTrack(i)),
            None => None,
        }
    } else if same_text(action, "move_track") {
        match (req.index, req.to_index) {
            (Some(from), Some(to)) => Some(PlayerCommand::MoveTrack(from, to)),
            _ => None,
        }
    } else if same_text(action, "toggle_loop") {
        Some(PlayerCommand::ToggleLoop)
    } else if same_text(action, "toggle_shuffle") {
        Some(PlayerCommand::ToggleShuffle)
    } else {
        None
    }
}

/// The track that an uploaded file is kept as.
pub open spec fn track_of(upload: Upload, duration_sec: Seconds) -> Track {
    Track { id: upload.id, name: upload.name, path: upload.path, duration_sec }
}

/// The track that a field of an upload is kept as, where it could be kept.
pub open spec fn field_track(field: Option<(Upload, Seconds)>) -> Option<Track> {
    match field {
        Some((upload, duration_sec)) => Some(track_of(upload, duration_sec)),
        None => None,
    }
}

/// The tracks that the fields of an upload are kept as, in their order.
pub open spec fn kept_tracks(fields: Seq<Option<Track>>) -> Seq<Track>
    decreases fields.len(),
{
    if fields.len() == 0 {
        Seq::empty()
    } else {
        match fields.last() {
            Some(track) => kept_tracks(fields.drop_last()).push(track),
            None => kept_tracks(fields.drop_last()),
        }
    }
}

/// Whether any field of an upload was kept, going by one field after the other.
pub open spec fn any_kept(fields: Seq<Option<Track>>) -> bool
    decreases fields.len(),
{
    fields.len() > 0 && (any_kept(fields.drop_last()) || fields.last() is Some)
}

/// The status of an upload.
pub open spec fn upload_code(uploaded: bool) -> u16 {
    if uploaded {
        200u16
    } else {
        400u16
    }
}

impl PlayerView {
    /// After a field of an upload: with its track at the end of the playlist, where it
    /// was kept.
    pub open spec fn after_field(self, field: Option<Track>) -> PlayerView {
        match field {
            Some(track) => PlayerView { playlist: self.playlist.push(track), ..self },
            None => self,
        }
    }

    /// After several fields of an upload, one after the other.
    pub open spec fn after_fields(self, fields: Seq<Option<Track>>) -> PlayerView
        decreases fields.len(),
    {
        if fields.len() == 0 {
            self
        } else {
            self.after_fields(fields.drop_last()).after_field(fields.last())
        }
    }

    /// What sending a command sets at once, before the player loop obeys it: to play
    /// or to seek within a track starts a playlist that has tracks, to pause stops it.
    pub open spec fn primed(self, command: PlayerCommand) -> PlayerView {
        match command {
            PlayerCommand::Play | PlayerCommand::SeekTime(_) => PlayerView {
                playing: self.playing || self.playlist.len() > 0,
                ..self
            },
            PlayerCommand::Pause => PlayerView { playing: false, ..self },
            _ => self,
        }
    }
}

impl PlayerStateData {
    /// Sets at once what a command that was just sent asks for.
    pub fn prime(&mut self, command: PlayerCommand)
        ensures
            final(self)@ == old(self)@.primed(command),
    {
        match command {
            PlayerCommand::Play | PlayerCommand::SeekTime(_) => {
                if self.playlist.len() > 0 {
                    self.playing = true;
                }
            },
            PlayerCommand::Pause => {
                self.playing = false;
            },
            _ => {},
        }
    }

    /// Puts a track that was uploaded at the end of the playlist.
    pub fn add_track(&mut self, upload: Upload, duration_sec: Seconds)
        ensures
            final(self)@ == old(self)@.after_field(Some(track_of(upload, duration_sec))),
    {
        self.playlist.push(
            Track { id: upload.id, name: upload.name, path: upload.path, duration_sec },
        );
    }

    /// Takes in a field of an upload, given the track that it could be kept as, and
    /// whether any field before it was kept. Gives back whether any was kept by now.
    pub fn take_field(&mut self, field: Option<(Upload, Seconds)>, uploaded: bool) -> (r: bool)
        ensures
            final(self)@ == old(self)@.after_field(field_track(field)),
            r == (uploaded || field is Some),
    {
        match field {
            Some((upload, duration_sec)) => {
                self.add_track(upload, duration_sec);
                true
            },
            None => uploaded,
        }
    }
}

/// The track that an uploaded file will be, under an identifier of its own: named
/// after the file, or "track" where the file has no name, and kept in the folder of
/// uploads.
pub fn name_upload(id: String, file_name: Option<String>) -> (r: Upload)
    ensures
        r.id@ == id@,
        r.name@ == (match file_name {
            Some(name) => name@,
            None => "track"@,
        }),
        r.path@ == "uploads/"@ + id@ + "_"@ + r.name@,
{
    let name: String = match file_name {
        Some(name) => name,
        None => "track".to_owned(),
    };
    let folder: String = join("uploads/", id.as_str());
    let stem: String = join(folder.as_str(), "_");
    let path: String = join(stem.as_str(), name.as_str());
    Upload { id, name, path }
}

/// The track that an uploaded file will be, under a fresh identifier.
pub fn begin_upload(file_name: Option<String>) -> (r: Upload)
    ensures
        is_random_uuid(r.id@),
        drawn(r.id@),
        r.name@ == (match file_name {
            Some(name) => name@,
            None => "track"@,
        }),
        r.path@ == "uploads/"@ + r.id@ + "_"@ + r.name@,
{
    name_upload(draw(), file_name)
}

/// The status of an upload: whether any file was kept.
pub fn upload_status(uploaded: bool) -> (r: u16)
    ensures
        r == upload_code(uploaded),
{
    if uploaded {
        200
    } else {
        400
    }
}

/// Whether the saved state of the player is out of date.
pub fn needs_saving(json: &str, last_json: &str) -> (r: bool)
    ensures
        r == (json@ != last_json@),
{
    !same_text(json, last_json)
}

/// An upload adds the tracks of the fields that were kept behind the playlist, in their
/// order, and changes nothing else; its status is 200 exactly where there was one.
pub proof fn law_upload_adds_what_was_kept(player: PlayerView, fields: Seq<Option<Track>>)
    ensures
        player.after_fields(fields) == (PlayerView {
            playlist: player.playlist + kept_tracks(fields),
            ..player
        }),
        any_kept(fields) <==> kept_tracks(fields).len() > 0,
        any_kept(fields) <==> exists|i: int| 0 <= i < fields.len() && (#[trigger] fields[i]) is Some,
        upload_code(any_kept(fields)) == (if kept_tracks(fields).len() > 0 {
            200u16
        } else {
            400u16
        }),
    decreases fields.len(),
{
    if fields.len() == 0 {
        assert(player.playlist + kept_tracks(fields) =~= player.playlist);
    } else {
        let before = fields.drop_last();
        law_upload_adds_what_was_kept(player, before);
        assert(fields.last() == fields[fields.len() - 1]);
        if exists|i: int| 0 <= i < before.len() && (#[trigger] before[i]) is Some {
            let i = choose|i: int| 0 <= i < before.len() && (#[trigger] before[i]) is Some;
            assert(fields[i] is Some);
        }
        if exists|i: int| 0 <= i < fields.len() && (#[trigger] fields[i]) is Some {
            let i = choose|i: int| 0 <= i < fields.len() && (#[trigger] fields[i]) is Some;
            if i < before.len() {
                assert(before[i] is Some);
            }
        }
        assert(player.after_fields(fields).playlist =~= player.playlist + kept_tracks(fields));
    }
}

/// Uploads under different identifiers are kept in different files, whatever the files
/// are called.
pub proof fn law_uploads_do_not_collide(
    id: Seq<char>,
    name: Seq<char>,
    other_id: Seq<char>,
    other_name: Seq<char>,
)
    requires
        is_random_uuid(id),
        is_random_uuid(other_id),
        id != other_id,
    ensures
        "uploads/"@ + id + "_"@ + name != "uploads/"@ + other_id + "_"@ + other_name,
{
    let path = "uploads/"@ + id + "_"@ + name;
    let other = "uploads/"@ + other_id + "_"@ + other_name;
    if path == other {
        let from = "uploads/"@.len() as int;
        assert forall|i: int| 0 <= i < 36 implies id[i] == other_id[i] by {
            assert(path[from + i] == id[i]);
            assert(other[from + i] == other_id[i]);
        }
        assert(id =~= other_id);
    }
}

/// Ten words ask for a command, and no other word does.
pub proof fn law_only_known_actions_are_obeyed(
    action: Seq<char>,
    index: Option<usize>,
    to_index: Option<usize>,
    time: Option<Seconds>,
)
    requires
        requested(action, index, to_index, time) is Some,
    ensures
        seq![
            "play"@,
            "pause"@,
            "next"@,
            "prev"@,
            "seek"@,
            "seek_track"@,
            "remove_track"@,
            "move_track"@,
            "toggle_loop"@,
            "toggle_shuffle"@,
        ].contains(action),
{
    let known = seq![
        "play"@,
        "pause"@,
        "next"@,
        "prev"@,
        "seek"@,
        "seek_track"@,
        "remove_track"@,
        "move_track"@,
        "toggle_loop"@,
        "toggle_shuffle"@,
    ];
    assert(known[0] == "play"@ && known[1] == "pause"@ && known[2] == "next"@ && known[3]
        == "prev"@ && known[4] == "seek"@ && known[5] == "seek_track"@ && known[6]
        == "remove_track"@ && known[7] == "move_track"@ && known[8] == "toggle_loop"@ && known[9]
        == "toggle_shuffle"@);
}

/// Sending a command and adding a track leave a settled player settled.
pub proof fn law_requests_keep_player_settled(player: PlayerView, command: PlayerCommand, track: Track)
    requires
        player.settled(),
    ensures
        player.primed(command).settled(),
        (PlayerView { playlist: player.playlist.push(track), ..player }).settled(),
{
}

} // verus!

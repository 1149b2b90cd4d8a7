//! What each operation of the hub does, said of the calls that make it.
//!
//! Each law takes a call, with what it was given and what it gave, and says how the
//! two relate. `hub` is the hub before the call, and `final(hub)` after it.

use crate::capture::start_answer;
use crate::device::{
    copy_device, device_views, event_of, event_views, ControlEvent, DeviceInfo, DeviceRole,
    DeviceStatus, DeviceView, EventView, RegisterDeviceRequest,
};
use crate::hub::{sweep_events, Hub, Snapshot};
use crate::hub_laws::{law_devices_are_listed_once, lemma_sweep_told};
use crate::ids::{drawn, is_random_uuid};
use crate::level::Level;
use crate::tables::is_walk;
use crate::text::texts;
use vstd::prelude::*;

verus! {

/// What a sweep does to each device goes by how long ago it was heard of, and not at
/// all where it was heard of later than now: after more than five minutes it is gone;
/// after more than fifteen seconds it is offline where it was online, with the same id,
/// name, role, streams, volume and time last heard of as before; else it is as it was.
/// No device appears, and no stream changes.
pub proof fn law_sweep_changes_only_the_status(
    hub: &mut Hub,
    now: u64,
    r: Vec<ControlEvent>,
    key: Seq<char>,
)
    requires
        call_ensures(Hub::sweep, (hub, now), r),
    ensures
        ({
            let before = old(hub)@.devices;
            let after = final(hub)@.devices;
            let was = before[key];
            let is = after[key];
            &&& final(hub)@.streams == old(hub)@.streams
            &&& !before.contains_key(key) ==> !after.contains_key(key)
            &&& before.contains_key(key) ==> {
                &&& now - was.last_seen > 300_000 <==> !after.contains_key(key)
                &&& after.contains_key(key) ==> {
                    &&& is.id == was.id
                    &&& is.name == was.name
                    &&& is.role == was.role
                    &&& is.assigned_streams == was.assigned_streams
                    &&& is.volume == was.volume
                    &&& is.last_seen == was.last_seen
                    &&& is.status == (if now - was.last_seen > 15_000 && was.status
                        == DeviceStatus::Online {
                        DeviceStatus::Offline
                    } else {
                        was.status
                    })
                }
            }
        }),
{
}

/// A sweep tells of each device that is gone that it left, and of each that it marked
/// offline how it is now; of no other device, of none twice, and first of those that
/// left.
pub proof fn law_sweep_tells_what_it_did(hub: &mut Hub, now: u64, r: Vec<ControlEvent>)
    requires
        call_ensures(Hub::sweep, (hub, now), r),
        forall|k: Seq<char>| #[trigger]
            old(hub)@.devices.contains_key(k) ==> old(hub)@.devices[k].id == k,
    ensures
        ({
            let before = old(hub)@.devices;
            let after = final(hub)@.devices;
            let told = event_views(r@);
            &&& forall|k: Seq<char>| #[trigger]
                before.contains_key(k) && !after.contains_key(k) ==> told.contains(
                    EventView::DeviceLeft { id: k },
                )
            &&& forall|k: Seq<char>| #[trigger]
                after.contains_key(k) && after[k] != before[k] ==> told.contains(
                    EventView::DeviceUpdated { device: after[k] },
                )
            &&& forall|i: int|
                0 <= i < told.len() ==> match #[trigger] told[i] {
                    EventView::DeviceLeft { id } => before.contains_key(id) && !after.contains_key(
                        id,
                    ),
                    EventView::DeviceUpdated { device } => after.contains_key(device.id)
                        && after[device.id] == device && before[device.id] != device,
                    _ => false,
                }
            &&& told.no_duplicates()
            &&& forall|i: int, j: int|
                0 <= i < j < told.len() && (#[trigger] told[i] is DeviceUpdated) ==> (
                #[trigger] told[j] is DeviceUpdated)
        }),
{
    let before = old(hub)@.devices;
    let after = final(hub)@.devices;
    let told = event_views(r@);
    let keys = choose|keys: Seq<Seq<char>>| #[trigger]
        is_walk(keys, before) && told == sweep_events(keys, before, now);
    lemma_sweep_told(keys, before, now);
    let gone = keys.filter(|k: Seq<char>| before[k].is_forgotten(now));
    let dimmed = keys.filter(|k: Seq<char>| before[k].drops_out(now));
    assert forall|k: Seq<char>| #[trigger]
        before.contains_key(k) && !after.contains_key(k) implies told.contains(
        EventView::DeviceLeft { id: k },
    ) by {
        assert(keys.contains(k));
        assert(gone.contains(k));
        let i = choose|i: int| 0 <= i < gone.len() && gone[i] == k;
        assert(told[i] == EventView::DeviceLeft { id: k });
    }
    assert forall|k: Seq<char>| #[trigger]
        after.contains_key(k) && after[k] != before[k] implies told.contains(
        EventView::DeviceUpdated { device: after[k] },
    ) by {
        assert(keys.contains(k));
        assert(dimmed.contains(k));
        let i = choose|i: int| 0 <= i < dimmed.len() && dimmed[i] == k;
        assert(told[gone.len() + i] == EventView::DeviceUpdated { device: after[k] });
    }
    assert forall|i: int| 0 <= i < gone.len() implies told[i] == (EventView::DeviceLeft {
        id: #[trigger] gone[i],
    }) && before.contains_key(gone[i]) && !after.contains_key(gone[i]) by {
        assert(gone.contains(gone[i]));
        assert(keys.contains(gone[i]));
    }
    assert forall|i: int| 0 <= i < dimmed.len() implies told[gone.len() + i]
        == (EventView::DeviceUpdated { device: after[#[trigger] dimmed[i]] })
        && after.contains_key(dimmed[i]) && after[dimmed[i]].id == dimmed[i]
        && after[dimmed[i]].status != before[dimmed[i]].status by {
        assert(dimmed.contains(dimmed[i]));
        assert(keys.contains(dimmed[i]));
    }
    assert(told.len() == gone.len() + dimmed.len());
    assert forall|i: int| 0 <= i < told.len() implies match #[trigger] told[i] {
        EventView::DeviceLeft { id } => before.contains_key(id) && !after.contains_key(id),
        EventView::DeviceUpdated { device } => after.contains_key(device.id) && after[device.id]
            == device && before[device.id] != device,
        _ => false,
    } by {
        if i < gone.len() {
            assert(told[i] == EventView::DeviceLeft { id: gone[i] });
        } else {
            let k = dimmed[i - gone.len()];
            assert(told[gone.len() + (i - gone.len())] == EventView::DeviceUpdated {
                device: after[k],
            });
        }
    }
    assert forall|i: int, j: int| 0 <= i < told.len() && 0 <= j < told.len() && i != j implies told[i]
        != told[j] by {
        if i < gone.len() {
            assert(told[i]->DeviceLeft_id == gone[i]);
        } else {
            assert(told[i]->DeviceUpdated_device.id == dimmed[i - gone.len()]);
        }
        if j < gone.len() {
            assert(told[j]->DeviceLeft_id == gone[j]);
        } else {
            assert(told[j]->DeviceUpdated_device.id == dimmed[j - gone.len()]);
        }
    }
    assert forall|i: int, j: int| 0 <= i < j < told.len() && (#[trigger] told[i] is DeviceUpdated)
        implies (#[trigger] told[j] is DeviceUpdated) by {
        if j < gone.len() {
            assert(told[i] == EventView::DeviceLeft { id: gone[i] });
        } else {
            assert(told[j] == EventView::DeviceUpdated { device: after[dimmed[j - gone.len()]] });
        }
    }
}

/// A registration is answered with a device of the name and role that it asks for,
/// online and heard of now; that device is filed under its id, nothing else changes,
/// and everyone is told that it joined.
pub proof fn law_registered_device_is_there(
    hub: &mut Hub,
    req: RegisterDeviceRequest,
    now: u64,
    r: (DeviceInfo, ControlEvent),
)
    requires
        call_ensures(Hub::register_device, (hub, req, now), r),
    ensures
        r.0@.name == req.name@,
        r.0@.role == req.role,
        r.0@.status == DeviceStatus::Online,
        r.0@.last_seen == now,
        r.1@ == (EventView::DeviceJoined { device: r.0@ }),
        final(hub)@.devices == old(hub)@.devices.insert(r.0@.id, r.0@),
        final(hub)@.streams == old(hub)@.streams,
{
}

/// Whatever its streams, its volume and the time it was last heard of, an offline
/// device of the name and role that a registration asks for is taken up again: the
/// answer is a device that the hub had, with its id, streams and volume, and no device
/// is added, whatever id was asked for. With several such devices it is one of them.
pub proof fn law_offline_device_is_taken_up_again(
    hub: &mut Hub,
    req: RegisterDeviceRequest,
    now: u64,
    r: (DeviceInfo, ControlEvent),
    key: Seq<char>,
)
    requires
        call_ensures(Hub::register_device, (hub, req, now), r),
        forall|k: Seq<char>| #[trigger]
            old(hub)@.devices.contains_key(k) ==> old(hub)@.devices[k].id == k,
        old(hub)@.devices.contains_key(key),
        old(hub)@.devices[key].name == req.name@,
        old(hub)@.devices[key].role == req.role,
        old(hub)@.devices[key].status == DeviceStatus::Offline,
    ensures
        ({
            let was = old(hub)@.devices[r.0@.id];
            &&& old(hub)@.devices.contains_key(r.0@.id)
            &&& was.status == DeviceStatus::Offline
            &&& was.name == req.name@
            &&& was.role == req.role
            &&& r.0@.assigned_streams == was.assigned_streams
            &&& r.0@.volume == was.volume
            &&& final(hub)@.devices.dom() == old(hub)@.devices.dom()
            &&& forall|k: Seq<char>|
                k != r.0@.id ==> #[trigger] final(hub)@.devices[k] == old(hub)@.devices[k]
        }),
{
    assert(old(hub)@.devices[key].is_reclaimable(req.name@, req.role));
    assert(old(hub)@.has_reclaimable(req.name@, req.role));
    assert(final(hub)@.devices.dom() =~= old(hub)@.devices.dom());
}

/// Without an offline device of its name and role, a registration adds a new device:
/// without streams, at volume 1.0, under the id that it asks for, or under one that was
/// drawn for it.
pub proof fn law_unknown_device_joins_as_a_new_one(
    hub: &mut Hub,
    req: RegisterDeviceRequest,
    now: u64,
    r: (DeviceInfo, ControlEvent),
)
    requires
        call_ensures(Hub::register_device, (hub, req, now), r),
        forall|k: Seq<char>| #[trigger]
            old(hub)@.devices.contains_key(k) ==> old(hub)@.devices[k].name != req.name@ || old(hub)@.devices[k].role != req.role || old(hub)@.devices[k].status != DeviceStatus::Offline,
    ensures
        r.0@.assigned_streams.len() == 0,
        r.0@.volume.bits == 0x3f80_0000,
        req.id matches Some(id) ==> r.0@.id == id@,
        req.id is None ==> is_random_uuid(r.0@.id) && drawn(r.0@.id),
{
    assert(!old(hub)@.has_reclaimable(req.name@, req.role));
}

/// Given the id that was drawn, a registration does the same: a new device that asks
/// for no id has the drawn one.
pub proof fn law_drawn_id_is_used_where_none_is_asked_for(
    hub: &mut Hub,
    req: RegisterDeviceRequest,
    fresh: String,
    now: u64,
    r: (DeviceInfo, ControlEvent),
)
    requires
        call_ensures(Hub::register_device_at, (hub, req, fresh, now), r),
    ensures
        r.0@.name == req.name@,
        r.0@.role == req.role,
        r.0@.status == DeviceStatus::Online,
        r.0@.last_seen == now,
        r.1@ == (EventView::DeviceJoined { device: r.0@ }),
        final(hub)@.devices == old(hub)@.devices.insert(r.0@.id, r.0@),
        final(hub)@.streams == old(hub)@.streams,
        ({
            let offline = |d: DeviceView|
                d.name == req.name@ && d.role == req.role && d.status == DeviceStatus::Offline;
            &&& (exists|k: Seq<char>| #[trigger]
                old(hub)@.devices.contains_key(k) && offline(old(hub)@.devices[k])) ==> (exists|
                k: Seq<char>,
            | #[trigger]
                old(hub)@.devices.contains_key(k) && offline(old(hub)@.devices[k]) && r.0@.id
                    == old(hub)@.devices[k].id && r.0@.volume == old(hub)@.devices[k].volume
                    && r.0@.assigned_streams == old(hub)@.devices[k].assigned_streams)
            &&& !(exists|k: Seq<char>| #[trigger]
                old(hub)@.devices.contains_key(k) && offline(old(hub)@.devices[k])) ==> {
                &&& r.0@.assigned_streams.len() == 0
                &&& r.0@.volume.bits == 0x3f80_0000
                &&& r.0@.id == (match req.id {
                    Some(id) => id@,
                    None => fresh@,
                })
            }
        }),
{
    let offline = |d: DeviceView|
        d.name == req.name@ && d.role == req.role && d.status == DeviceStatus::Offline;
    assert forall|k: Seq<char>| #[trigger] old(hub)@.devices.contains_key(k) implies offline(
        old(hub)@.devices[k],
    ) == old(hub)@.devices[k].is_reclaimable(req.name@, req.role) by {}
}

/// A device that is lost and registers again, under whatever id, is back as it was: the
/// hub has the same devices, and the answer is one of those that were there, online.
pub proof fn law_lost_device_registers_as_itself(
    first: &mut Hub,
    id: &str,
    told: Option<ControlEvent>,
    second: &mut Hub,
    req: RegisterDeviceRequest,
    now: u64,
    r: (DeviceInfo, ControlEvent),
)
    requires
        call_ensures(Hub::disconnect, (first, id), told),
        call_ensures(Hub::register_device, (second, req, now), r),
        *old(second) == *final(first),
        forall|k: Seq<char>| #[trigger]
            old(first)@.devices.contains_key(k) ==> old(first)@.devices[k].id == k,
        old(first)@.devices.contains_key(id@),
        req.name@ == old(first)@.devices[id@].name,
        req.role == old(first)@.devices[id@].role,
    ensures
        old(first)@.devices.contains_key(r.0@.id),
        final(second)@.devices.dom() == old(first)@.devices.dom(),
        r.0@.volume == old(first)@.devices[r.0@.id].volume,
        r.0@.assigned_streams == old(first)@.devices[r.0@.id].assigned_streams,
{
    assert forall|k: Seq<char>| #[trigger] old(second)@.devices.contains_key(k) implies old(second)@.devices[k].id == k && old(first)@.devices.contains_key(k) by {}
    law_offline_device_is_taken_up_again(second, req, now, r, id@);
    assert(old(second)@.devices.dom() =~= old(first)@.devices.dom());
}

/// A heartbeat makes the device that it comes from online and heard of now, and changes
/// nothing else; it is told where the device was offline, and not where it was not. An
/// unknown device changes nothing.
pub proof fn law_heartbeat_is_heard(
    hub: &mut Hub,
    id: &str,
    now: u64,
    r: Option<ControlEvent>,
)
    requires
        call_ensures(Hub::heartbeat, (hub, id, now), r),
    ensures
        final(hub)@.streams == old(hub)@.streams,
        !old(hub)@.devices.contains_key(id@) ==> final(hub)@.devices == old(hub)@.devices && r
            is None,
        old(hub)@.devices.contains_key(id@) ==> {
            let is = DeviceView {
                status: DeviceStatus::Online,
                last_seen: now,
                ..old(hub)@.devices[id@]
            };
            &&& final(hub)@.devices == old(hub)@.devices.insert(id@, is)
            &&& event_of(r) == (if old(hub)@.devices[id@].status == DeviceStatus::Offline {
                Some(EventView::DeviceUpdated { device: is })
            } else {
                None
            })
        },
{
}

/// A lost connection makes its device offline, whatever it was, changes nothing else,
/// and is told. An unknown device changes nothing, and nothing is told.
pub proof fn law_lost_connection_is_told(hub: &mut Hub, id: &str, r: Option<ControlEvent>)
    requires
        call_ensures(Hub::disconnect, (hub, id), r),
    ensures
        final(hub)@.streams == old(hub)@.streams,
        !old(hub)@.devices.contains_key(id@) ==> final(hub)@.devices == old(hub)@.devices && r
            is None,
        old(hub)@.devices.contains_key(id@) ==> {
            let is = DeviceView { status: DeviceStatus::Offline, ..old(hub)@.devices[id@] };
            &&& final(hub)@.devices == old(hub)@.devices.insert(id@, is)
            &&& event_of(r) == Some(EventView::DeviceUpdated { device: is })
        },
{
}

/// Removing a device takes out that one alone, and is told whether it was there or not.
pub proof fn law_removed_device_is_gone(hub: &mut Hub, id: &str, r: ControlEvent)
    requires
        call_ensures(Hub::remove_device, (hub, id), r),
    ensures
        final(hub)@.devices == old(hub)@.devices.remove(id@),
        final(hub)@.streams == old(hub)@.streams,
        r@ == (EventView::DeviceLeft { id: id@ }),
{
}

/// Adding a stream files its channel under its name, in place of the one that was
/// there, which is given back; nothing else changes, and it is told.
pub proof fn law_added_stream_is_there(
    hub: &mut Hub,
    name: &str,
    channel: u64,
    r: (Option<u64>, ControlEvent),
)
    requires
        call_ensures(Hub::add_stream, (hub, name, channel), r),
    ensures
        final(hub)@.streams == old(hub)@.streams.insert(name@, channel),
        final(hub)@.devices == old(hub)@.devices,
        old(hub)@.streams.contains_key(name@) ==> r.0 == Some(old(hub)@.streams[name@]),
        !old(hub)@.streams.contains_key(name@) ==> r.0 is None,
        r.1@ == (EventView::StreamAdded { name: name@ }),
{
}

/// Removing a stream takes out that one alone and gives back its channel; it is told
/// whether the stream was there or not.
pub proof fn law_removed_stream_is_gone(
    hub: &mut Hub,
    name: &str,
    r: (Option<u64>, ControlEvent),
)
    requires
        call_ensures(Hub::remove_stream, (hub, name), r),
    ensures
        final(hub)@.streams == old(hub)@.streams.remove(name@),
        final(hub)@.devices == old(hub)@.devices,
        old(hub)@.streams.contains_key(name@) ==> r.0 == Some(old(hub)@.streams[name@]),
        !old(hub)@.streams.contains_key(name@) ==> r.0 is None,
        r.1@ == (EventView::StreamRemoved { name: name@ }),
{
}

/// A stream is found under the channel that it was filed with, and where there is none
/// nothing is found.
pub proof fn law_stream_is_found_by_name(hub: &Hub, name: &str, r: Option<u64>)
    requires
        call_ensures(Hub::stream_channel, (hub, name), r),
    ensures
        r is Some <==> hub@.streams.contains_key(name@),
        r matches Some(channel) ==> channel == hub@.streams[name@],
{
}

/// The capture of the system's own sound adds its stream where it is not there, and is
/// told and answered so; where it is there, nothing changes and nothing is told.
pub proof fn law_capture_adds_its_stream(
    hub: &mut Hub,
    channel: u64,
    r: Option<ControlEvent>,
    answer: String,
)
    requires
        call_ensures(Hub::start_system_capture, (hub, channel), r),
        call_ensures(start_answer, (&r,), answer),
    ensures
        final(hub)@.devices == old(hub)@.devices,
        old(hub)@.streams.contains_key("system"@) ==> {
            &&& final(hub)@.streams == old(hub)@.streams
            &&& r is None
            &&& answer@ == "System stream already running."@
        },
        !old(hub)@.streams.contains_key("system"@) ==> {
            &&& final(hub)@.streams == old(hub)@.streams.insert("system"@, channel)
            &&& event_of(r) == Some(EventView::StreamAdded { name: "system"@ })
            &&& answer@ == "System stream started."@
        },
{
}

/// The player joins as a microphone that is online, heard of now, without streams and
/// at volume 1.0, and with a stream of its own name; both are told, the device first.
pub proof fn law_player_joins_with_its_stream(
    hub: &mut Hub,
    channel: u64,
    now: u64,
    r: (Option<u64>, Vec<ControlEvent>),
)
    requires
        call_ensures(Hub::add_player, (hub, channel, now), r),
    ensures
        ({
            let player = DeviceView {
                id: "bgm-server-player"@,
                name: "BGM Player"@,
                role: DeviceRole::Mic,
                status: DeviceStatus::Online,
                assigned_streams: Seq::empty(),
                volume: Level { bits: 0x3f80_0000 },
                last_seen: now,
            };
            &&& final(hub)@.devices == old(hub)@.devices.insert("bgm-server-player"@, player)
            &&& final(hub)@.streams == old(hub)@.streams.insert("BGM Player"@, channel)
            &&& r.0 is Some <==> old(hub)@.streams.contains_key("BGM Player"@)
            &&& r.0 matches Some(replaced) ==> replaced == old(hub)@.streams["BGM Player"@]
            &&& event_views(r.1@) == seq![
                EventView::DeviceJoined { device: player },
                EventView::StreamAdded { name: "BGM Player"@ },
            ]
        }),
{
}

/// A volume is set on a device, held between 0.0 and 2.0, and told twice, as a change
/// and as a request; of a stream that is no device it is only requested. A not-a-number
/// stays one. Nothing else of the device but the time it was heard of changes, nothing
/// of any other and of no stream, and nothing at all where there is neither.
pub proof fn law_volume_is_held_and_told(
    hub: &mut Hub,
    id: &str,
    volume: Level,
    now: u64,
    r: Option<Vec<ControlEvent>>,
)
    requires
        call_ensures(Hub::patch_device_volume, (hub, id, volume, now), r),
    ensures
        ({
            let set = Level {
                bits: if 0x4000_0000 < volume.bits <= 0x7f80_0000 {
                    0x4000_0000
                } else if 0x8000_0000 < volume.bits <= 0xff80_0000 {
                    0
                } else {
                    volume.bits
                },
            };
            let request = EventView::SetVolume { device_id: id@, stream: None, volume: set };
            &&& final(hub)@.streams == old(hub)@.streams
            &&& old(hub)@.devices.contains_key(id@) ==> {
                &&& final(hub)@.devices == old(hub)@.devices.insert(
                    id@,
                    DeviceView { volume: set, last_seen: now, ..old(hub)@.devices[id@] },
                )
                &&& r is Some
                &&& event_views(r->Some_0@) == seq![
                    EventView::VolumeChanged { device_id: id@, volume: set },
                    request,
                ]
            }
            &&& !old(hub)@.devices.contains_key(id@) ==> final(hub)@.devices == old(hub)@.devices
            &&& !old(hub)@.devices.contains_key(id@) && old(hub)@.streams.contains_key(id@) ==> {
                &&& r is Some
                &&& event_views(r->Some_0@) == seq![request]
            }
            &&& !old(hub)@.devices.contains_key(id@) && !old(hub)@.streams.contains_key(id@)
                ==> r is None
        }),
{
}

/// Streams are assigned to a device in place of those that it had, as they are given;
/// each that is new to it is told as connected, in their order, then each that it lost
/// as disconnected, in theirs, and no other. Nothing else of the device but the time it
/// was heard of changes, nothing of any other, and nothing at all where there is none.
pub proof fn law_streams_are_assigned_and_told(
    hub: &mut Hub,
    id: &str,
    streams: Vec<String>,
    now: u64,
    r: Option<Vec<ControlEvent>>,
)
    requires
        call_ensures(Hub::patch_device_streams, (hub, id, streams, now), r),
    ensures
        final(hub)@.streams == old(hub)@.streams,
        !old(hub)@.devices.contains_key(id@) ==> final(hub)@.devices == old(hub)@.devices && r
            is None,
        old(hub)@.devices.contains_key(id@) ==> {
            let before = old(hub)@.devices[id@].assigned_streams;
            let after = streams@.map_values(|s: String| s@);
            let gained = after.filter(|s: Seq<char>| !before.contains(s));
            let lost = before.filter(|s: Seq<char>| !after.contains(s));
            &&& final(hub)@.devices == old(hub)@.devices.insert(
                id@,
                DeviceView { assigned_streams: after, last_seen: now, ..old(hub)@.devices[id@] },
            )
            &&& r is Some
            &&& event_views(r->Some_0@) == gained.map_values(
                |s: Seq<char>|
                    EventView::RouteChanged { source: s, speaker_id: id@, connected: true },
            ) + lost.map_values(
                |s: Seq<char>|
                    EventView::RouteChanged { source: s, speaker_id: id@, connected: false },
            )
        },
{
    if old(hub)@.devices.contains_key(id@) {
        let before = old(hub)@.devices[id@].assigned_streams;
        let after = streams@.map_values(|s: String| s@);
        let gained = after.filter(|s: Seq<char>| !before.contains(s));
        let lost = before.filter(|s: Seq<char>| !after.contains(s));
        assert(event_views(r->Some_0@) =~= gained.map_values(
            |s: Seq<char>| EventView::RouteChanged { source: s, speaker_id: id@, connected: true },
        ) + lost.map_values(
            |s: Seq<char>| EventView::RouteChanged { source: s, speaker_id: id@, connected: false },
        ));
    }
}

/// The volume of a device is the one that is set on it, and 1.0 of one that is unknown.
pub proof fn law_volume_is_read_of_the_device(hub: &Hub, id: &str, r: Level)
    requires
        call_ensures(Hub::device_volume, (hub, id), r),
    ensures
        hub@.devices.contains_key(id@) ==> r == hub@.devices[id@].volume,
        !hub@.devices.contains_key(id@) ==> r.bits == 0x3f80_0000,
{
}

/// A new hub has no device and no stream.
pub proof fn law_new_hub_is_empty(hub: Hub, key: Seq<char>)
    requires
        call_ensures(Hub::new, (), hub),
    ensures
        !hub@.devices.contains_key(key),
        !hub@.streams.contains_key(key),
{
}

/// The list of streams holds the name of each stream once, and no other name.
pub proof fn law_streams_are_listed_once(hub: &Hub, r: Vec<String>, name: Seq<char>)
    requires
        call_ensures(Hub::list_streams, (hub,), r),
    ensures
        (exists|i: int| 0 <= i < r@.len() && #[trigger] r@[i]@ == name)
            <==> hub@.streams.contains_key(name),
        forall|i: int, j: int|
            0 <= i < j < r@.len() ==> #[trigger] r@[i]@ != #[trigger] r@[j]@,
{
    let names = texts(r@);
    if hub@.streams.contains_key(name) {
        assert(names.contains(name));
        let i = choose|i: int| 0 <= i < names.len() && names[i] == name;
        assert(r@[i]@ == name);
    }
    if exists|i: int| 0 <= i < r@.len() && #[trigger] r@[i]@ == name {
        let i = choose|i: int| 0 <= i < r@.len() && #[trigger] r@[i]@ == name;
        assert(names[i] == name);
        assert(names.contains(name));
    }
    assert forall|i: int, j: int| 0 <= i < j < r@.len() implies #[trigger] r@[i]@
        != #[trigger] r@[j]@ by {
        assert(names[i] != names[j]);
    }
}

/// The list of devices holds each device of the hub as it is, once, and no other.
pub proof fn law_devices_are_listed_as_they_are(hub: &Hub, r: Vec<DeviceInfo>, d: DeviceView)
    requires
        call_ensures(Hub::list_devices, (hub,), r),
        forall|k: Seq<char>| #[trigger]
            hub@.devices.contains_key(k) ==> hub@.devices[k].id == k,
    ensures
        (exists|i: int| 0 <= i < r@.len() && #[trigger] r@[i]@ == d)
            <==> hub@.devices.contains_key(d.id) && hub@.devices[d.id] == d,
        forall|i: int, j: int|
            0 <= i < j < r@.len() ==> #[trigger] r@[i]@.id != #[trigger] r@[j]@.id,
{
    lemma_listed(hub, r@, d);
}

/// A snapshot holds what the two lists hold.
pub proof fn law_snapshot_holds_everything(
    hub: &Hub,
    r: Snapshot,
    name: Seq<char>,
    d: DeviceView,
)
    requires
        call_ensures(Hub::snapshot, (hub,), r),
        forall|k: Seq<char>| #[trigger]
            hub@.devices.contains_key(k) ==> hub@.devices[k].id == k,
    ensures
        texts(r.streams@).contains(name) <==> hub@.streams.contains_key(name),
        texts(r.streams@).no_duplicates(),
        (exists|i: int| 0 <= i < r.devices@.len() && #[trigger] r.devices@[i]@ == d)
            <==> hub@.devices.contains_key(d.id) && hub@.devices[d.id] == d,
        forall|i: int, j: int|
            0 <= i < j < r.devices@.len() ==> #[trigger] r.devices@[i]@.id
                != #[trigger] r.devices@[j]@.id,
{
    lemma_listed(hub, r.devices@, d);
}

/// A copy of a device is the same in everything.
pub proof fn law_copy_is_the_same(device: &DeviceInfo, r: DeviceInfo)
    requires
        call_ensures(copy_device, (device,), r),
    ensures
        r@.id == device@.id,
        r@.name == device@.name,
        r@.role == device@.role,
        r@.status == device@.status,
        r@.assigned_streams == device@.assigned_streams,
        r@.volume == device@.volume,
        r@.last_seen == device@.last_seen,
{
}

/// What a list of the devices of a hub holds.
proof fn lemma_listed(hub: &Hub, list: Seq<DeviceInfo>, d: DeviceView)
    requires
        hub@.lists(device_views(list)),
        forall|k: Seq<char>| #[trigger]
            hub@.devices.contains_key(k) ==> hub@.devices[k].id == k,
    ensures
        (exists|i: int| 0 <= i < list.len() && #[trigger] list[i]@ == d)
            <==> hub@.devices.contains_key(d.id) && hub@.devices[d.id] == d,
        forall|i: int, j: int|
            0 <= i < j < list.len() ==> #[trigger] list[i]@.id != #[trigger] list[j]@.id,
{
    let views = device_views(list);
    law_devices_are_listed_once(hub@, views);
    if exists|i: int| 0 <= i < list.len() && #[trigger] list[i]@ == d {
        let i = choose|i: int| 0 <= i < list.len() && #[trigger] list[i]@ == d;
        assert(views[i] == d);
        assert(views.contains(d));
    }
    if hub@.devices.contains_key(d.id) && hub@.devices[d.id] == d {
        assert(views.contains(d));
        let i = choose|i: int| 0 <= i < views.len() && views[i] == d;
        assert(list[i]@ == d);
    }
    assert forall|i: int, j: int| 0 <= i < j < list.len() implies #[trigger] list[i]@.id
        != #[trigger] list[j]@.id by {
        assert(views[i].id != views[j].id);
    }
}

} // verus!

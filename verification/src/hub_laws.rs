//! What holds of the hub whatever happens to it.

use crate::capture::capture_answer;
use crate::device::{DeviceStatus, DeviceView, EventView};
use crate::hub::{
    left_events, offline_events, one_way, route_events, sweep_events, swept_devices, HubView,
    FORGET_AFTER, OFFLINE_AFTER,
};
use crate::level::Level;
use crate::tables::is_walk;
use vstd::prelude::*;

verus! {

/// Whatever changes the devices of a hub, each stays filed under its own id: a device
/// that joins or comes back, one that is removed, a sweep, a heartbeat, a lost
/// connection, a new volume and new streams.
pub proof fn law_devices_stay_filed_by_id(
    hub: HubView,
    device: DeviceView,
    key: Seq<char>,
    volume: Level,
    streams: Seq<Seq<char>>,
    now: u64,
)
    requires
        hub.filed_by_id(),
    ensures
        hub.with_device(device.id, device).filed_by_id(),
        hub.without_device(key).filed_by_id(),
        hub.swept(now).filed_by_id(),
        hub.heard(key, now).filed_by_id(),
        hub.lost(key).filed_by_id(),
        hub.turned(key, volume, now).filed_by_id(),
        hub.routed(key, streams, now).filed_by_id(),
{
}

/// A device stays in the hub through a sweep exactly where it was heard of within the
/// time after which devices are forgotten.
pub proof fn law_sweep_forgets_exactly_the_silent(hub: HubView, key: Seq<char>, now: u64)
    ensures
        hub.swept(now).devices.contains_key(key) <==> hub.devices.contains_key(key)
            && hub.devices[key].silence(now) <= FORGET_AFTER,
        hub.swept(now).streams == hub.streams,
{
}

/// A device that was heard of within the time after which devices count as offline
/// passes a sweep unchanged.
pub proof fn law_sweep_spares_the_recent(hub: HubView, key: Seq<char>, now: u64)
    requires
        hub.devices.contains_key(key),
        hub.devices[key].silence(now) <= OFFLINE_AFTER,
    ensures
        hub.swept(now).devices.contains_key(key),
        hub.swept(now).devices[key] == hub.devices[key],
{
}

/// A heartbeat keeps a device online through every sweep of the next fifteen seconds,
/// whatever state it was in.
pub proof fn law_heartbeat_keeps_online(hub: HubView, key: Seq<char>, now: u64, later: u64)
    requires
        hub.devices.contains_key(key),
        later <= now + OFFLINE_AFTER,
    ensures
        ({
            let after = hub.heard(key, now).swept(later);
            &&& after.devices.contains_key(key)
            &&& after.devices[key] == hub.devices[key].seen(now)
            &&& after.devices[key].status == DeviceStatus::Online
        }),
{
}

/// A sweep marks no device offline that is live; it can only take it off.
pub proof fn law_sweep_never_marks_the_live(hub: HubView, key: Seq<char>, now: u64)
    requires
        hub.swept(now).devices.contains_key(key),
        hub.devices[key].status == DeviceStatus::Live,
    ensures
        hub.swept(now).devices[key] == hub.devices[key],
{
}

/// Sweeping again at the same time changes nothing and tells nothing.
pub proof fn law_second_sweep_is_silent(hub: HubView, keys: Seq<Seq<char>>, now: u64)
    requires
        is_walk(keys, hub.swept(now).devices),
    ensures
        hub.swept(now).swept(now) == hub.swept(now),
        sweep_events(keys, hub.swept(now).devices, now) == Seq::<EventView>::empty(),
{
    let devices = hub.swept(now).devices;
    assert(swept_devices(devices, now) =~= devices);
    assert(hub.swept(now).swept(now) =~= hub.swept(now));
    assert forall|i: int| 0 <= i < keys.len() implies !devices[#[trigger] keys[i]].is_forgotten(now)
        && !devices[keys[i]].drops_out(now) by {
        assert(keys.contains(keys[i]));
        assert(devices.contains_key(keys[i]));
    }
    lemma_filter_none(keys, |k: Seq<char>| devices[k].is_forgotten(now));
    lemma_filter_none(keys, |k: Seq<char>| devices[k].drops_out(now));
    assert(left_events(keys, devices, now) =~= Seq::empty());
    assert(offline_events(keys, devices, now) =~= Seq::empty());
    assert(sweep_events(keys, devices, now) =~= Seq::empty());
}

/// A sweep tells of a device that it left exactly where it takes it off, and once.
pub proof fn law_sweep_tells_who_left(
    hub: HubView,
    keys: Seq<Seq<char>>,
    key: Seq<char>,
    now: u64,
)
    requires
        is_walk(keys, hub.devices),
    ensures
        sweep_events(keys, hub.devices, now).contains(EventView::DeviceLeft { id: key })
            <==> hub.devices.contains_key(key) && !hub.swept(now).devices.contains_key(key),
        left_events(keys, hub.devices, now).no_duplicates(),
{
    let gone = |k: Seq<char>| hub.devices[k].is_forgotten(now);
    let event = EventView::DeviceLeft { id: key };
    let told = sweep_events(keys, hub.devices, now);
    let left = left_events(keys, hub.devices, now);
    let names = keys.filter(gone);
    lemma_filter_holds(keys, gone, key);
    lemma_filter_unique(keys, gone);
    assert forall|i: int, j: int| 0 <= i < left.len() && 0 <= j < left.len() && i != j implies left[i]
        != left[j] by {
        assert(names[i] != names[j]);
        assert(left[i]->DeviceLeft_id == names[i]);
        assert(left[j]->DeviceLeft_id == names[j]);
    }
    if told.contains(event) {
        let i = choose|i: int| 0 <= i < told.len() && told[i] == event;
        assert(i < left.len()) by {
            if i >= left.len() {
                assert(told[i] == offline_events(keys, hub.devices, now)[i - left.len()]);
            }
        }
        assert(names[i] == key);
        assert(names.contains(names[i]));
        assert(keys.contains(key));
    }
    if hub.devices.contains_key(key) && !hub.swept(now).devices.contains_key(key) {
        assert(keys.contains(key));
        let j = choose|j: int| 0 <= j < keys.len() && keys[j] == key;
        assert(gone(keys[j]));
        assert(names.contains(key));
        let i = choose|i: int| 0 <= i < names.len() && names[i] == key;
        assert(left[i] == event);
        assert(told[i] == event);
    }
}

/// A device that is taken up again keeps its id, its volume and its streams, and no
/// other device appears or goes.
pub proof fn law_reclaiming_keeps_the_device(hub: HubView, key: Seq<char>, now: u64)
    requires
        hub.filed_by_id(),
        hub.devices.contains_key(key),
    ensures
        ({
            let known = hub.devices[key];
            let after = hub.with_device(known.seen(now).id, known.seen(now));
            &&& after.devices.dom() == hub.devices.dom()
            &&& after.devices[key].id == known.id
            &&& after.devices[key].name == known.name
            &&& after.devices[key].role == known.role
            &&& after.devices[key].volume == known.volume
            &&& after.devices[key].assigned_streams == known.assigned_streams
            &&& after.devices[key].status == DeviceStatus::Online
            &&& forall|k: Seq<char>|
                k != key ==> #[trigger] after.devices[k] == hub.devices[k]
        }),
{
    let known = hub.devices[key];
    assert(known.id == key);
    assert(hub.devices.insert(key, known.seen(now)).dom() =~= hub.devices.dom());
}

/// A list of the devices of a hub holds each device, no device that is not there, and
/// none twice: no id occurs a second time in it.
pub proof fn law_devices_are_listed_once(hub: HubView, devices: Seq<DeviceView>)
    requires
        hub.filed_by_id(),
        hub.lists(devices),
    ensures
        forall|d: DeviceView| #[trigger]
            devices.contains(d) <==> hub.devices.contains_key(d.id) && hub.devices[d.id] == d,
        forall|i: int, j: int|
            0 <= i < j < devices.len() ==> (#[trigger] devices[i]).id != (
            #[trigger] devices[j]).id,
{
    let keys = choose|keys: Seq<Seq<char>>| #[trigger]
        is_walk(keys, hub.devices) && devices == keys.map_values(|k: Seq<char>| hub.devices[k]);
    assert forall|i: int| 0 <= i < devices.len() implies hub.devices.contains_key(
        #[trigger] keys[i],
    ) && devices[i] == hub.devices[keys[i]] && devices[i].id == keys[i] by {
        assert(keys.contains(keys[i]));
    }
    assert forall|d: DeviceView| #[trigger]
        devices.contains(d) <==> hub.devices.contains_key(d.id) && hub.devices[d.id] == d by {
        if devices.contains(d) {
            let i = choose|i: int| 0 <= i < devices.len() && devices[i] == d;
            assert(d.id == keys[i]);
        }
        if hub.devices.contains_key(d.id) && hub.devices[d.id] == d {
            assert(keys.contains(d.id));
            let i = choose|i: int| 0 <= i < keys.len() && keys[i] == d.id;
            assert(devices[i] == d);
        }
    }
    assert forall|i: int, j: int| 0 <= i < j < devices.len() implies (#[trigger] devices[i]).id != (
    #[trigger] devices[j]).id by {
        assert(devices[i].id == keys[i] && devices[j].id == keys[j]);
    }
}

/// What is set on a device is what is read of it afterwards: its volume, held between
/// the bounds, and its streams. Nothing else of it but the time it was last heard of
/// changes, and no other device and no stream does.
pub proof fn law_patches_read_back(
    hub: HubView,
    key: Seq<char>,
    volume: Level,
    streams: Seq<Seq<char>>,
    now: u64,
)
    requires
        hub.devices.contains_key(key),
    ensures
        ({
            let known = hub.devices[key];
            let turned = hub.turned(key, volume, now);
            let routed = hub.routed(key, streams, now);
            &&& turned.devices[key] == (DeviceView {
                volume: volume.held(),
                last_seen: now,
                ..known
            })
            &&& routed.devices[key] == (DeviceView {
                assigned_streams: streams,
                last_seen: now,
                ..known
            })
            &&& turned.devices.remove(key) == hub.devices.remove(key)
            &&& routed.devices.remove(key) == hub.devices.remove(key)
            &&& turned.streams == hub.streams
            &&& routed.streams == hub.streams
        }),
{
    assert(hub.turned(key, volume, now).devices.remove(key) =~= hub.devices.remove(key));
    assert(hub.routed(key, streams, now).devices.remove(key) =~= hub.devices.remove(key));
}

/// A device that joins is there, as it joined; removed again, the hub is as it was
/// before, where no device of that id was there.
pub proof fn law_removing_undoes_joining(hub: HubView, device: DeviceView)
    ensures
        hub.with_device(device.id, device).devices.contains_key(device.id),
        hub.with_device(device.id, device).devices[device.id] == device,
        !hub.with_device(device.id, device).without_device(device.id).devices.contains_key(
            device.id,
        ),
        !hub.devices.contains_key(device.id) ==> hub.with_device(
            device.id,
            device,
        ).without_device(device.id) == hub,
{
    if !hub.devices.contains_key(device.id) {
        assert(hub.with_device(device.id, device).without_device(device.id) =~= hub);
    }
}

/// A stream that is added is found under its channel, and the other streams as before;
/// removed again, the hub is as it was before, where no stream of that name was there.
pub proof fn law_removing_undoes_adding_a_stream(
    hub: HubView,
    name: Seq<char>,
    channel: u64,
    other: Seq<char>,
)
    requires
        other != name,
    ensures
        hub.with_stream(name, channel).channel_of(name) == Some(channel),
        hub.with_stream(name, channel).channel_of(other) == hub.channel_of(other),
        hub.without_stream(name).channel_of(name) is None,
        hub.without_stream(name).channel_of(other) == hub.channel_of(other),
        hub.channel_of(name) is None ==> hub.with_stream(name, channel).without_stream(name) == hub,
{
    if hub.channel_of(name) is None {
        assert(hub.with_stream(name, channel).without_stream(name) =~= hub);
    }
}

/// The capture of the system's own sound starts once: where its stream is there, a
/// request changes nothing, tells nothing and is answered that it runs; else it adds
/// that stream alone and tells so. A second request in a row always finds it running.
pub proof fn law_capture_starts_once(hub: HubView, channel: u64, again: u64)
    ensures
        hub.channel_of("system"@) is Some ==> {
            &&& hub.captured(channel) == hub
            &&& hub.capture_event() is None
            &&& capture_answer(hub.capture_event()) == "System stream already running."@
        },
        hub.channel_of("system"@) is None ==> {
            &&& hub.captured(channel) == hub.with_stream("system"@, channel)
            &&& hub.capture_event() == Some(EventView::StreamAdded { name: "system"@ })
            &&& capture_answer(hub.capture_event()) == "System stream started."@
        },
        hub.captured(channel).captured(again) == hub.captured(channel),
        hub.captured(channel).capture_event() is None,
        capture_answer(hub.captured(channel).capture_event()) == "System stream already running."@,
{
}

/// A device whose connection is lost and that is heard of again is what it was but
/// for the time it was heard of and its being online; both are told.
pub proof fn law_lost_device_comes_back(hub: HubView, key: Seq<char>, now: u64)
    requires
        hub.devices.contains_key(key),
    ensures
        hub.lost(key).devices[key].status == DeviceStatus::Offline,
        hub.lost(key).heard(key, now) == hub.heard(key, now),
        hub.lost_event(key) == Some(
            EventView::DeviceUpdated { device: hub.lost(key).devices[key] },
        ),
        hub.lost(key).heard_event(key, now) == Some(
            EventView::DeviceUpdated { device: hub.heard(key, now).devices[key] },
        ),
{
    assert(hub.lost(key).heard(key, now) =~= hub.heard(key, now));
}

/// A change of streams tells that a stream is connected exactly where the device did
/// not have it and now has it, and that it is disconnected exactly where it had it
/// and no longer has it.
pub proof fn law_route_events_tell_the_difference(
    before: Seq<Seq<char>>,
    after: Seq<Seq<char>>,
    speaker_id: Seq<char>,
    stream: Seq<char>,
)
    ensures
        route_events(before, after, speaker_id).contains(
            EventView::RouteChanged { source: stream, speaker_id, connected: true },
        ) <==> after.contains(stream) && !before.contains(stream),
        route_events(before, after, speaker_id).contains(
            EventView::RouteChanged { source: stream, speaker_id, connected: false },
        ) <==> before.contains(stream) && !after.contains(stream),
{
    lemma_one_way_contains(after, before, speaker_id, true, stream);
    lemma_one_way_contains(before, after, speaker_id, false, stream);
    let on = one_way(after, before, speaker_id, true);
    let off = one_way(before, after, speaker_id, false);
    let connect = EventView::RouteChanged { source: stream, speaker_id, connected: true };
    let disconnect = EventView::RouteChanged { source: stream, speaker_id, connected: false };
    let told = on + off;
    assert(told == route_events(before, after, speaker_id));
    if told.contains(connect) {
        let i = choose|i: int| 0 <= i < told.len() && told[i] == connect;
        if i >= on.len() {
            assert(told[i] == off[i - on.len()]);
        }
        assert(on[i] == connect);
    }
    if on.contains(connect) {
        let i = choose|i: int| 0 <= i < on.len() && on[i] == connect;
        assert(told[i] == connect);
    }
    if told.contains(disconnect) {
        let i = choose|i: int| 0 <= i < told.len() && told[i] == disconnect;
        if i < on.len() {
            assert(told[i] == on[i]);
        }
        assert(off[i - on.len()] == disconnect);
    }
    if off.contains(disconnect) {
        let i = choose|i: int| 0 <= i < off.len() && off[i] == disconnect;
        assert(told[on.len() + i] == disconnect);
    }
}

/// Assigning the streams that a device has already tells nothing.
pub proof fn law_same_streams_are_silent(streams: Seq<Seq<char>>, speaker_id: Seq<char>)
    ensures
        route_events(streams, streams, speaker_id) == Seq::<EventView>::empty(),
{
    let other = |s: Seq<char>| !streams.contains(s);
    assert forall|i: int| 0 <= i < streams.len() implies !other(#[trigger] streams[i]) by {
        assert(streams.contains(streams[i]));
    }
    lemma_filter_none(streams, other);
    assert(route_events(streams, streams, speaker_id) =~= Seq::empty());
}

/// The devices that a sweep takes off and those that it marks, in the order of a walk:
/// exactly those that it should, none twice.
pub(crate) proof fn lemma_sweep_told(
    keys: Seq<Seq<char>>,
    devices: Map<Seq<char>, DeviceView>,
    now: u64,
)
    requires
        is_walk(keys, devices),
    ensures
        ({
            let gone = keys.filter(|k: Seq<char>| devices[k].is_forgotten(now));
            let dimmed = keys.filter(|k: Seq<char>| devices[k].drops_out(now));
            &&& gone.no_duplicates()
            &&& dimmed.no_duplicates()
            &&& forall|k: Seq<char>| #[trigger]
                gone.contains(k) <==> keys.contains(k) && devices[k].is_forgotten(now)
            &&& forall|k: Seq<char>| #[trigger]
                dimmed.contains(k) <==> keys.contains(k) && devices[k].drops_out(now)
        }),
{
    let is_gone = |k: Seq<char>| devices[k].is_forgotten(now);
    let is_dimmed = |k: Seq<char>| devices[k].drops_out(now);
    lemma_filter_unique(keys, is_gone);
    lemma_filter_unique(keys, is_dimmed);
    assert forall|k: Seq<char>| #[trigger]
        keys.filter(is_gone).contains(k) <==> keys.contains(k) && devices[k].is_forgotten(now) by {
        lemma_filter_holds(keys, is_gone, k);
    }
    assert forall|k: Seq<char>| #[trigger]
        keys.filter(is_dimmed).contains(k) <==> keys.contains(k) && devices[k].drops_out(now) by {
        lemma_filter_holds(keys, is_dimmed, k);
    }
}

/// Filtering keeps exactly the items that meet the condition.
proof fn lemma_filter_holds<A>(s: Seq<A>, pred: spec_fn(A) -> bool, x: A)
    ensures
        s.filter(pred).contains(x) <==> s.contains(x) && pred(x),
    decreases s.len(),
{
    reveal(Seq::filter);
    if s.len() > 0 {
        let rest = s.drop_last();
        let kept = rest.filter(pred);
        lemma_filter_holds(rest, pred, x);
        if s.contains(x) && x != s.last() {
            let j = choose|j: int| 0 <= j < s.len() && s[j] == x;
            assert(rest[j] == x);
        }
        if rest.contains(x) {
            let j = choose|j: int| 0 <= j < rest.len() && rest[j] == x;
            assert(s[j] == x);
        }
        assert(s.contains(s.last())) by {
            assert(s[s.len() - 1] == s.last());
        }
        if pred(s.last()) {
            assert(s.filter(pred) == kept.push(s.last()));
            assert(kept.push(s.last())[kept.len() as int] == s.last());
            if kept.contains(x) {
                let j = choose|j: int| 0 <= j < kept.len() && kept[j] == x;
                assert(kept.push(s.last())[j] == x);
            }
            if s.filter(pred).contains(x) && x != s.last() {
                let j = choose|j: int| 0 <= j < s.filter(pred).len() && s.filter(pred)[j] == x;
                assert(kept[j] == x);
            }
        }
    }
}

/// Where no item meets a condition, filtering leaves nothing.
proof fn lemma_filter_none<A>(s: Seq<A>, pred: spec_fn(A) -> bool)
    requires
        forall|i: int| 0 <= i < s.len() ==> !pred(#[trigger] s[i]),
    ensures
        s.filter(pred) == Seq::<A>::empty(),
{
    if s.filter(pred).len() > 0 {
        let first = s.filter(pred)[0];
        assert(s.filter(pred).contains(first));
        lemma_filter_holds(s, pred, first);
        let i = choose|i: int| 0 <= i < s.len() && s[i] == first;
        assert(!pred(s[i]));
    }
    assert(s.filter(pred) =~= Seq::empty());
}

/// Filtering keeps items that are all different all different.
proof fn lemma_filter_unique<A>(s: Seq<A>, pred: spec_fn(A) -> bool)
    requires
        s.no_duplicates(),
    ensures
        s.filter(pred).no_duplicates(),
    decreases s.len(),
{
    reveal(Seq::filter);
    if s.len() > 0 {
        let rest = s.drop_last();
        lemma_filter_unique(rest, pred);
        assert forall|i: int| 0 <= i < rest.filter(pred).len() implies rest.filter(pred)[i]
            != s.last() by {
            let x = rest.filter(pred)[i];
            assert(rest.filter(pred).contains(x));
            lemma_filter_holds(rest, pred, x);
            let j = choose|j: int| 0 <= j < rest.len() && rest[j] == x;
            assert(s[j] == x);
        }
    }
}

/// A list, as changes of route, holds the change of a stream exactly where the list
/// holds the stream and the other list does not.
proof fn lemma_one_way_contains(
    list: Seq<Seq<char>>,
    other: Seq<Seq<char>>,
    speaker_id: Seq<char>,
    connected: bool,
    stream: Seq<char>,
)
    ensures
        one_way(list, other, speaker_id, connected).contains(
            EventView::RouteChanged { source: stream, speaker_id, connected },
        ) <==> list.contains(stream) && !other.contains(stream),
{
    let pred = |s: Seq<char>| !other.contains(s);
    let kept = list.filter(pred);
    let events = one_way(list, other, speaker_id, connected);
    let event = EventView::RouteChanged { source: stream, speaker_id, connected };
    lemma_filter_holds(list, pred, stream);
    if events.contains(event) {
        let i = choose|i: int| 0 <= i < events.len() && events[i] == event;
        assert(kept[i] == stream);
        assert(kept.contains(kept[i]));
    }
    if list.contains(stream) && !other.contains(stream) {
        assert(kept.contains(stream));
        let i = choose|i: int| 0 <= i < kept.len() && kept[i] == stream;
        assert(events[i] == event);
    }
}

} // verus!

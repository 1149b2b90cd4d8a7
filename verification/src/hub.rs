//! The hub: which devices and streams there are, and what everyone is told when
//! that changes.

use crate::device::{
    copy_device, device_views, event_of, event_views, ControlEvent, DeviceInfo, DeviceRole,
    DeviceStatus, DeviceView, EventView, RegisterDeviceRequest,
};
use crate::ids::{draw, drawn, is_random_uuid};
use crate::level::{Level, UNITY};
use crate::tables::{
    delete_device, delete_stream, device_entries, entry_keys, find_device, find_stream,
    insert_device, insert_stream, is_walk, new_devices, new_streams, stream_entries, walk_devices,
    walk_streams,
};
use crate::text::{lists, same_text, texts};
use dashmap::DashMap;
use vstd::prelude::*;

verus! {

/// A device not heard of for longer than this many milliseconds is taken off.
pub const FORGET_AFTER: u64 = 300_000;

/// An online device not heard of for longer than this many milliseconds is offline.
pub const OFFLINE_AFTER: u64 = 15_000;

/// The devices and the streams of the hub. A stream stands for the channel that
/// carries it, by number.
pub struct Hub {
    devices: DashMap<String, DeviceInfo>,
    streams: DashMap<String, u64>,
}

/// What a connection to the control bus is told first: all streams and all devices.
#[derive(Debug)]
pub struct Snapshot {
    pub streams: Vec<String>,
    pub devices: Vec<DeviceInfo>,
}

/// The value of `Hub`.
#[verifier::ext_equal]
pub struct HubView {
    pub devices: Map<Seq<char>, DeviceView>,
    pub streams: Map<Seq<char>, u64>,
}

impl View for Hub {
    type V = HubView;

    closed spec fn view(&self) -> HubView {
        HubView { devices: device_entries(self.devices), streams: stream_entries(self.streams) }
    }
}

impl DeviceView {
    /// How long ago the device was heard of.
    pub open spec fn silence(self, now: u64) -> int {
        if now >= self.last_seen {
            now - self.last_seen
        } else {
            0
        }
    }

    /// The device is to be taken off.
    pub open spec fn is_forgotten(self, now: u64) -> bool {
        self.silence(now) > FORGET_AFTER
    }

    /// The device is to be marked offline.
    pub open spec fn drops_out(self, now: u64) -> bool {
        !self.is_forgotten(now) && self.silence(now) > OFFLINE_AFTER && self.status
            == DeviceStatus::Online
    }

    /// The device after a sweep that does not take it off.
    pub open spec fn aged(self, now: u64) -> DeviceView {
        if self.drops_out(now) {
            DeviceView { status: DeviceStatus::Offline, ..self }
        } else {
            self
        }
    }

    /// A device that registers under this name and role can take this one up again.
    pub open spec fn is_reclaimable(self, name: Seq<char>, role: DeviceRole) -> bool {
        self.name == name && self.role == role && self.status == DeviceStatus::Offline
    }

    /// The device, heard of at a time.
    pub open spec fn seen(self, now: u64) -> DeviceView {
        DeviceView { status: DeviceStatus::Online, last_seen: now, ..self }
    }

    /// The device, no longer connected.
    pub open spec fn gone(self) -> DeviceView {
        DeviceView { status: DeviceStatus::Offline, ..self }
    }

    /// A device that registers for the first time.
    pub open spec fn newcomer(
        id: Seq<char>,
        name: Seq<char>,
        role: DeviceRole,
        now: u64,
    ) -> DeviceView {
        DeviceView {
            id,
            name,
            role,
            status: DeviceStatus::Online,
            assigned_streams: Seq::empty(),
            volume: Level { bits: UNITY },
            last_seen: now,
        }
    }
}

impl HubView {
    /// Every device is filed under its own id.
    pub open spec fn filed_by_id(self) -> bool {
        forall|k: Seq<char>| #[trigger]
            self.devices.contains_key(k) ==> self.devices[k].id == k
    }

    /// Some device can be taken up again under this name and role.
    pub open spec fn has_reclaimable(self, name: Seq<char>, role: DeviceRole) -> bool {
        exists|k: Seq<char>| #[trigger]
            self.devices.contains_key(k) && self.devices[k].is_reclaimable(name, role)
    }

    /// A list holds every device of the hub once, in some order.
    pub open spec fn lists(self, devices: Seq<DeviceView>) -> bool {
        exists|keys: Seq<Seq<char>>| #[trigger]
            is_walk(keys, self.devices) && devices == keys.map_values(
                |k: Seq<char>| self.devices[k],
            )
    }

    /// With a device filed under a key.
    pub open spec fn with_device(self, key: Seq<char>, device: DeviceView) -> HubView {
        HubView { devices: self.devices.insert(key, device), ..self }
    }

    /// Without the device filed under a key.
    pub open spec fn without_device(self, key: Seq<char>) -> HubView {
        HubView { devices: self.devices.remove(key), ..self }
    }

    /// With a stream, carried by a channel.
    pub open spec fn with_stream(self, name: Seq<char>, channel: u64) -> HubView {
        HubView { streams: self.streams.insert(name, channel), ..self }
    }

    /// Without the stream of a name.
    pub open spec fn without_stream(self, name: Seq<char>) -> HubView {
        HubView { streams: self.streams.remove(name), ..self }
    }

    /// The channel of a stream, where there is one of that name.
    pub open spec fn channel_of(self, name: Seq<char>) -> Option<u64> {
        if self.streams.contains_key(name) {
            Some(self.streams[name])
        } else {
            None
        }
    }

    /// After the capture of the system's own sound was asked for: its stream is there,
    /// as it was where it was there before.
    pub open spec fn captured(self, channel: u64) -> HubView {
        if self.channel_of("system"@) is Some {
            self
        } else {
            self.with_stream("system"@, channel)
        }
    }

    /// What is told when the capture of the system's own sound is asked for: nothing
    /// where it runs already.
    pub open spec fn capture_event(self) -> Option<EventView> {
        if self.channel_of("system"@) is Some {
            None
        } else {
            Some(EventView::StreamAdded { name: "system"@ })
        }
    }

    /// After a volume was asked for, for a device or for the sender of a stream.
    pub open spec fn turned(self, id: Seq<char>, volume: Level, now: u64) -> HubView {
        if self.devices.contains_key(id) {
            self.with_device(
                id,
                DeviceView { volume: volume.held(), last_seen: now, ..self.devices[id] },
            )
        } else {
            self
        }
    }

    /// After streams were assigned to a device.
    pub open spec fn routed(self, id: Seq<char>, streams: Seq<Seq<char>>, now: u64) -> HubView {
        if self.devices.contains_key(id) {
            self.with_device(
                id,
                DeviceView { assigned_streams: streams, last_seen: now, ..self.devices[id] },
            )
        } else {
            self
        }
    }

    /// After a device was heard of.
    pub open spec fn heard(self, id: Seq<char>, now: u64) -> HubView {
        if self.devices.contains_key(id) {
            self.with_device(id, self.devices[id].seen(now))
        } else {
            self
        }
    }

    /// What is told when a device is heard of: that it came back, where it was offline.
    pub open spec fn heard_event(self, id: Seq<char>, now: u64) -> Option<EventView> {
        if self.devices.contains_key(id) && self.devices[id].status == DeviceStatus::Offline {
            Some(EventView::DeviceUpdated { device: self.devices[id].seen(now) })
        } else {
            None
        }
    }

    /// After the connection to a device was lost.
    pub open spec fn lost(self, id: Seq<char>) -> HubView {
        if self.devices.contains_key(id) {
            self.with_device(id, self.devices[id].gone())
        } else {
            self
        }
    }

    /// What is told when the connection to a device is lost.
    pub open spec fn lost_event(self, id: Seq<char>) -> Option<EventView> {
        if self.devices.contains_key(id) {
            Some(EventView::DeviceUpdated { device: self.devices[id].gone() })
        } else {
            None
        }
    }

    /// After the devices were swept.
    pub open spec fn swept(self, now: u64) -> HubView {
        HubView { devices: swept_devices(self.devices, now), ..self }
    }
}

/// The devices that a sweep leaves.
pub open spec fn swept_devices(devices: Map<Seq<char>, DeviceView>, now: u64) -> Map<
    Seq<char>,
    DeviceView,
> {
    Map::new(
        |k: Seq<char>| devices.contains_key(k) && !devices[k].is_forgotten(now),
        |k: Seq<char>| devices[k].aged(now),
    )
}

/// What a sweep that walks over the devices in some order tells: first who left,
/// then who is offline.
pub open spec fn sweep_events(
    keys: Seq<Seq<char>>,
    devices: Map<Seq<char>, DeviceView>,
    now: u64,
) -> Seq<EventView> {
    left_events(keys, devices, now) + offline_events(keys, devices, now)
}

/// Who is taken off, in the order of a walk.
pub open spec fn left_events(
    keys: Seq<Seq<char>>,
    devices: Map<Seq<char>, DeviceView>,
    now: u64,
) -> Seq<EventView> {
    keys.filter(|k: Seq<char>| devices[k].is_forgotten(now)).map_values(
        |k: Seq<char>| EventView::DeviceLeft { id: k },
    )
}

/// Who is marked offline, in the order of a walk.
pub open spec fn offline_events(
    keys: Seq<Seq<char>>,
    devices: Map<Seq<char>, DeviceView>,
    now: u64,
) -> Seq<EventView> {
    keys.filter(|k: Seq<char>| devices[k].drops_out(now)).map_values(
        |k: Seq<char>| EventView::DeviceUpdated { device: devices[k].aged(now) },
    )
}

/// What a change of the streams of a speaker tells: each stream that is new to it is
/// connected, each that it had and no longer has is not.
pub open spec fn route_events(
    before: Seq<Seq<char>>,
    after: Seq<Seq<char>>,
    speaker_id: Seq<char>,
) -> Seq<EventView> {
    one_way(after, before, speaker_id, true) + one_way(before, after, speaker_id, false)
}

/// The streams of a list that another list does not hold, as changes of route.
pub open spec fn one_way(
    list: Seq<Seq<char>>,
    other: Seq<Seq<char>>,
    speaker_id: Seq<char>,
    connected: bool,
) -> Seq<EventView> {
    list.filter(|s: Seq<char>| !other.contains(s)).map_values(
        |s: Seq<char>| EventView::RouteChanged { source: s, speaker_id, connected },
    )
}

impl Hub {
    /// A hub without devices and streams.
    pub fn new() -> (r: Hub)
        ensures
            r@.devices == (Map::<Seq<char>, DeviceView>::empty()),
            r@.streams == (Map::<Seq<char>, u64>::empty()),
    {
        Hub { devices: new_devices(), streams: new_streams() }
    }

    /// The names of the streams, in no particular order.
    pub fn list_streams(&self) -> (r: Vec<String>)
        ensures
            is_walk(texts(r@), self@.streams),
    {
        walk_streams(&self.streams)
    }

    /// The devices, in no particular order.
    pub fn list_devices(&self) -> (r: Vec<DeviceInfo>)
        ensures
            self@.lists(device_views(r@)),
    {
        let walk: Vec<(String, DeviceInfo)> = walk_devices(&self.devices);
        let ghost keys = entry_keys(walk@);
        let ghost listed = keys.map_values(|k: Seq<char>| self@.devices[k]);
        let mut r: Vec<DeviceInfo> = Vec::new();
        let mut i: usize = 0;
        while i < walk.len()
            invariant
                i <= walk@.len(),
                keys == entry_keys(walk@),
                listed == keys.map_values(|k: Seq<char>| self@.devices[k]),
                forall|j: int|
                    0 <= j < walk@.len() ==> (#[trigger] walk@[j]).1@
                        == self@.devices[walk@[j].0@],
                device_views(r@) == listed.take(i as int),
            decreases walk@.len() - i,
        {
            let device: DeviceInfo = copy_device(&walk[i].1);
            assert(device@ == listed[i as int]);
            let ghost before = r@;
            r.push(device);
            assert(device_views(r@) =~= device_views(before).push(device@));
            i += 1;
            assert(listed.take(i as int) =~= listed.take(i - 1).push(listed[i - 1]));
        }
        assert(listed.take(i as int) =~= listed);
        r
    }

    /// What a new connection to the control bus is told: every stream and every device,
    /// each once, in no particular order.
    pub fn snapshot(&self) -> (r: Snapshot)
        ensures
            is_walk(texts(r.streams@), self@.streams),
            self@.lists(device_views(r.devices@)),
    {
        Snapshot { streams: self.list_streams(), devices: self.list_devices() }
    }

    /// The channel of a stream.
    pub fn stream_channel(&self, name: &str) -> (r: Option<u64>)
        ensures
            r == self@.channel_of(name@),
    {
        find_stream(&self.streams, name)
    }

    /// The volume of a device; 1.0 where it is unknown.
    pub fn device_volume(&self, id: &str) -> (r: Level)
        ensures
            r == (if self@.devices.contains_key(id@) {
                self@.devices[id@].volume
            } else {
                Level { bits: UNITY }
            }),
    {
        match find_device(&self.devices, id) {
            Some(device) => device.volume,
            None => Level::unity(),
        }
    }

    /// Adds a stream, carried by a channel. Gives back the channel of a stream of
    /// that name that it takes the place of.
    pub fn add_stream(&mut self, name: &str, channel: u64) -> (r: (Option<u64>, ControlEvent))
        ensures
            final(self)@ == old(self)@.with_stream(name@, channel),
            r.0 == old(self)@.channel_of(name@),
            r.1@ == (EventView::StreamAdded { name: name@ }),
    {
        let replaced: Option<u64> = insert_stream(&mut self.streams, name.to_owned(), channel);
        (replaced, ControlEvent::StreamAdded { name: name.to_owned() })
    }

    /// Removes a stream, and gives back its channel. That the stream was removed is
    /// told even where there was none.
    pub fn remove_stream(&mut self, name: &str) -> (r: (Option<u64>, ControlEvent))
        ensures
            final(self)@ == old(self)@.without_stream(name@),
            r.0 == old(self)@.channel_of(name@),
            r.1@ == (EventView::StreamRemoved { name: name@ }),
    {
        let removed: Option<u64> = delete_stream(&mut self.streams, name);
        (removed, ControlEvent::StreamRemoved { name: name.to_owned() })
    }

    /// Adds the stream of the system's own sound, unless it is there already.
    pub fn start_system_capture(&mut self, channel: u64) -> (r: Option<ControlEvent>)
        ensures
            final(self)@ == old(self)@.captured(channel),
            event_of(r) == old(self)@.capture_event(),
    {
        match self.stream_channel("system") {
            Some(_) => None,
            None => {
                let (_, event) = self.add_stream("system", channel);
                Some(event)
            },
        }
    }

    /// Adds the background-music player: its device, and the stream that it plays on.
    /// Gives back the channel of a stream of that name that it takes the place of.
    pub fn add_player(&mut self, channel: u64, now: u64) -> (r: (Option<u64>, Vec<ControlEvent>))
        ensures
            ({
                let player = DeviceView::newcomer(
                    "bgm-server-player"@,
                    "BGM Player"@,
                    DeviceRole::Mic,
                    now,
                );
                &&& final(self)@ == old(self)@.with_device(
                    "bgm-server-player"@,
                    player,
                ).with_stream("BGM Player"@, channel)
                &&& r.0 == old(self)@.channel_of("BGM Player"@)
                &&& event_views(r.1@) == seq![
                    EventView::DeviceJoined { device: player },
                    EventView::StreamAdded { name: "BGM Player"@ },
                ]
            }),
    {
        let device: DeviceInfo = newcomer(
            "bgm-server-player".to_owned(),
            "BGM Player".to_owned(),
            DeviceRole::Mic,
            now,
        );
        let joined: ControlEvent = self.file(device);
        let (replaced, added) = self.add_stream("BGM Player", channel);
        let mut events: Vec<ControlEvent> = Vec::new();
        events.push(joined);
        events.push(added);
        assert(event_views(events@) =~= seq![joined@, added@]);
        (replaced, events)
    }

    /// Files a device under its id, and tells that it joined.
    fn file(&mut self, device: DeviceInfo) -> (r: ControlEvent)
        ensures
            final(self)@ == old(self)@.with_device(device@.id, device@),
            r@ == (EventView::DeviceJoined { device: device@ }),
    {
        let copy: DeviceInfo = copy_device(&device);
        insert_device(&mut self.devices, device.id.clone(), device);
        ControlEvent::DeviceJoined { device: copy }
    }

    /// An offline device of a name and a role.
    fn find_reclaimable(&self, name: &str, role: DeviceRole) -> (r: Option<DeviceInfo>)
        ensures
            r is Some <==> self@.has_reclaimable(name@, role),
            r matches Some(d) ==> exists|k: Seq<char>| #[trigger]
                self@.devices.contains_key(k) && self@.devices[k] == d@ && d@.is_reclaimable(
                    name@,
                    role,
                ),
    {
        let walk: Vec<(String, DeviceInfo)> = walk_devices(&self.devices);
        let ghost keys = entry_keys(walk@);
        let mut i: usize = 0;
        while i < walk.len()
            invariant
                i <= walk@.len(),
                keys == entry_keys(walk@),
                is_walk(keys, self@.devices),
                forall|j: int|
                    0 <= j < walk@.len() ==> (#[trigger] walk@[j]).1@
                        == self@.devices[walk@[j].0@],
                forall|j: int|
                    0 <= j < i ==> !(#[trigger] walk@[j]).1@.is_reclaimable(name@, role),
            decreases walk@.len() - i,
        {
            let device: &DeviceInfo = &walk[i].1;
            if same_text(device.name.as_str(), name) && device.role == role && device.status
                == DeviceStatus::Offline {
                assert(keys[i as int] == walk@[i as int].0@);
                assert(keys.contains(keys[i as int]));
                assert(self@.devices.contains_key(walk@[i as int].0@));
                return Some(copy_device(device));
            }
            i += 1;
        }
        proof {
            assert forall|k: Seq<char>| #[trigger]
                self@.devices.contains_key(k) implies !self@.devices[k].is_reclaimable(
                name@,
                role,
            ) by {
                assert(keys.contains(k));
                let j = choose|j: int| 0 <= j < keys.len() && keys[j] == k;
                assert(walk@[j].0@ == k);
            }
        }
        None
    }

    /// Registers a device that asks for it at a time. It takes up again an offline
    /// device of its name and role, where there is one; else it joins as a new one,
    /// under the id it asks for or else under `fresh`.
    pub fn register_device_at(
        &mut self,
        req: RegisterDeviceRequest,
        fresh: String,
        now: u64,
    ) -> (r: (DeviceInfo, ControlEvent))
        ensures
            final(self)@ == old(self)@.with_device(r.0@.id, r.0@),
            r.1@ == (EventView::DeviceJoined { device: r.0@ }),
            old(self)@.has_reclaimable(req.name@, req.role) ==> exists|k: Seq<char>| #[trigger]
                old(self)@.devices.contains_key(k) && old(self)@.devices[k].is_reclaimable(
                    req.name@,
                    req.role,
                ) && r.0@ == old(self)@.devices[k].seen(now),
            !old(self)@.has_reclaimable(req.name@, req.role) ==> r.0@ == DeviceView::newcomer(
                match req.id {
                    Some(id) => id@,
                    None => fresh@,
                },
                req.name@,
                req.role,
                now,
            ),
    {
        let device: DeviceInfo = match self.find_reclaimable(req.name.as_str(), req.role) {
            Some(known) => {
                let mut known = known;
                known.status = DeviceStatus::Online;
                known.last_seen = now;
                known
            },
            None => {
                let id: String = match req.id {
                    Some(id) => id,
                    None => fresh,
                };
                newcomer(id, req.name, req.role, now)
            },
        };
        let copy: DeviceInfo = copy_device(&device);
        let event: ControlEvent = self.file(device);
        (copy, event)
    }

    /// Registers a device that asks for it now; a new one that asks for no id gets a
    /// fresh one.
    pub fn register_device(&mut self, req: RegisterDeviceRequest, now: u64) -> (r: (
        DeviceInfo,
        ControlEvent,
    ))
        ensures
            final(self)@ == old(self)@.with_device(r.0@.id, r.0@),
            r.1@ == (EventView::DeviceJoined { device: r.0@ }),
            old(self)@.has_reclaimable(req.name@, req.role) ==> exists|k: Seq<char>| #[trigger]
                old(self)@.devices.contains_key(k) && old(self)@.devices[k].is_reclaimable(
                    req.name@,
                    req.role,
                ) && r.0@ == old(self)@.devices[k].seen(now),
            !old(self)@.has_reclaimable(req.name@, req.role) ==> {
                &&& r.0@ == DeviceView::newcomer(r.0@.id, req.name@, req.role, now)
                &&& match req.id {
                    Some(id) => r.0@.id == id@,
                    None => is_random_uuid(r.0@.id) && drawn(r.0@.id),
                }
            },
    {
        let fresh: String = match &req.id {
            Some(id) => id.clone(),
            None => draw(),
        };
        self.register_device_at(req, fresh, now)
    }

    /// Removes a device. That it left is told even where there was none.
    pub fn remove_device(&mut self, id: &str) -> (r: ControlEvent)
        ensures
            final(self)@ == old(self)@.without_device(id@),
            r@ == (EventView::DeviceLeft { id: id@ }),
    {
        delete_device(&mut self.devices, id);
        ControlEvent::DeviceLeft { id: id.to_owned() }
    }

    /// Sets the volume of a device, or of the sender of a stream, held between 0.0
    /// and 2.0. `None` where there is no device and no stream of that name.
    pub fn patch_device_volume(&mut self, id: &str, volume: Level, now: u64) -> (r: Option<
        Vec<ControlEvent>,
    >)
        ensures
            r is Some <==> old(self)@.devices.contains_key(id@) || old(
                self,
            )@.streams.contains_key(id@),
            final(self)@ == old(self)@.turned(id@, volume, now),
            r matches Some(events) ==> event_views(events@) == (if old(
                self,
            )@.devices.contains_key(id@) {
                seq![
                    EventView::VolumeChanged { device_id: id@, volume: volume.held() },
                    EventView::SetVolume { device_id: id@, stream: None, volume: volume.held() },
                ]
            } else {
                seq![EventView::SetVolume { device_id: id@, stream: None, volume: volume.held() }]
            }),
    {
        let held: Level = volume.clamp();
        let set: ControlEvent = ControlEvent::SetVolume {
            device_id: id.to_owned(),
            stream: None,
            volume: held,
        };
        let mut events: Vec<ControlEvent> = Vec::new();
        match find_device(&self.devices, id) {
            Some(device) => {
                let mut device = device;
                device.volume = held;
                device.last_seen = now;
                insert_device(&mut self.devices, id.to_owned(), device);
                events.push(
                    ControlEvent::VolumeChanged { device_id: id.to_owned(), volume: held },
                );
                events.push(set);
                assert(event_views(events@) =~= seq![
                    EventView::VolumeChanged { device_id: id@, volume: volume.held() },
                    EventView::SetVolume { device_id: id@, stream: None, volume: volume.held() },
                ]);
                Some(events)
            },
            None => match find_stream(&self.streams, id) {
                Some(_) => {
                    events.push(set);
                    assert(event_views(events@) =~= seq![set@]);
                    Some(events)
                },
                None => None,
            },
        }
    }

    /// Assigns streams to a device, in place of those that it had. `None` where there
    /// is no such device.
    pub fn patch_device_streams(&mut self, id: &str, streams: Vec<String>, now: u64) -> (r: Option<
        Vec<ControlEvent>,
    >)
        ensures
            r is Some <==> old(self)@.devices.contains_key(id@),
            final(self)@ == old(self)@.routed(id@, texts(streams@), now),
            r matches Some(events) ==> event_views(events@) == route_events(
                old(self)@.devices[id@].assigned_streams,
                texts(streams@),
                id@,
            ),
    {
        match find_device(&self.devices, id) {
            Some(device) => {
                let mut device = device;
                let mut events: Vec<ControlEvent> = Vec::new();
                announce(&mut events, &streams, &device.assigned_streams, id, true);
                announce(&mut events, &device.assigned_streams, &streams, id, false);
                assert(event_views(events@) =~= route_events(
                    texts(device.assigned_streams@),
                    texts(streams@),
                    id@,
                ));
                device.assigned_streams = streams;
                device.last_seen = now;
                insert_device(&mut self.devices, id.to_owned(), device);
                Some(events)
            },
            None => None,
        }
    }

    /// Takes off the devices that were not heard of for long, and marks offline
    /// those that were not heard of for a while.
    pub fn sweep(&mut self, now: u64) -> (r: Vec<ControlEvent>)
        ensures
            final(self)@ == old(self)@.swept(now),
            exists|keys: Seq<Seq<char>>| #[trigger]
                is_walk(keys, old(self)@.devices) && event_views(r@) == sweep_events(
                    keys,
                    old(self)@.devices,
                    now,
                ),
    {
        let walk: Vec<(String, DeviceInfo)> = walk_devices(&self.devices);
        let ghost keys = entry_keys(walk@);
        let ghost devices = self@.devices;
        let ghost streams = self@.streams;
        let mut left: Vec<ControlEvent> = Vec::new();
        let mut offline: Vec<ControlEvent> = Vec::new();
        let mut i: usize = 0;
        proof {
            reveal(Seq::filter);
            assert(keys.take(0) =~= Seq::empty());
            assert(partly_swept(devices, keys.take(0), now) =~= devices);
        }
        while i < walk.len()
            invariant
                i <= walk@.len(),
                keys == entry_keys(walk@),
                is_walk(keys, devices),
                forall|j: int|
                    0 <= j < walk@.len() ==> (#[trigger] walk@[j]).1@ == devices[walk@[j].0@],
                self@.streams == streams,
                self@.devices == partly_swept(devices, keys.take(i as int), now),
                event_views(left@) == left_events(keys.take(i as int), devices, now),
                event_views(offline@) == offline_events(keys.take(i as int), devices, now),
            decreases walk@.len() - i,
        {
            let key: &String = &walk[i].0;
            let device: &DeviceInfo = &walk[i].1;
            let silence: u64 = if now >= device.last_seen {
                now - device.last_seen
            } else {
                0
            };
            let ghost before_left = left@;
            let ghost before_offline = offline@;
            let ghost before_devices = self@.devices;
            if silence > FORGET_AFTER {
                delete_device(&mut self.devices, key.as_str());
                left.push(ControlEvent::DeviceLeft { id: key.clone() });
            } else if silence > OFFLINE_AFTER && device.status == DeviceStatus::Online {
                let mut marked: DeviceInfo = copy_device(device);
                marked.status = DeviceStatus::Offline;
                offline.push(
                    ControlEvent::DeviceUpdated { device: copy_device(&marked) },
                );
                insert_device(&mut self.devices, key.clone(), marked);
            }
            proof {
                let k = keys[i as int];
                assert(k == key@);
                assert(keys.contains(k));
                assert(device@ == devices[k]);
                lemma_sweep_one(devices, keys, i as int, now);
                if devices[k].is_forgotten(now) {
                    assert(event_views(left@) =~= event_views(before_left).push(
                        EventView::DeviceLeft { id: k },
                    ));
                } else if devices[k].drops_out(now) {
                    assert(event_views(offline@) =~= event_views(before_offline).push(
                        EventView::DeviceUpdated { device: devices[k].aged(now) },
                    ));
                }
            }
            i += 1;
        }
        proof {
            assert(keys.take(i as int) =~= keys);
            assert(partly_swept(devices, keys, now) =~= swept_devices(devices, now));
        }
        let ghost first = left@;
        let ghost second = offline@;
        left.append(&mut offline);
        assert(event_views(left@) =~= event_views(first) + event_views(second));
        left
    }

    /// Hears of a device: it is online. What is told is that it came back, where it
    /// was offline.
    pub fn heartbeat(&mut self, id: &str, now: u64) -> (r: Option<ControlEvent>)
        ensures
            final(self)@ == old(self)@.heard(id@, now),
            event_of(r) == old(self)@.heard_event(id@, now),
    {
        match find_device(&self.devices, id) {
            Some(device) => {
                let mut device = device;
                let was_offline: bool = device.status == DeviceStatus::Offline;
                device.last_seen = now;
                device.status = DeviceStatus::Online;
                let copy: DeviceInfo = copy_device(&device);
                insert_device(&mut self.devices, id.to_owned(), device);
                if was_offline {
                    Some(ControlEvent::DeviceUpdated { device: copy })
                } else {
                    None
                }
            },
            None => None,
        }
    }

    /// Loses the connection to a device: it is offline, and this is told.
    pub fn disconnect(&mut self, id: &str) -> (r: Option<ControlEvent>)
        ensures
            final(self)@ == old(self)@.lost(id@),
            event_of(r) == old(self)@.lost_event(id@),
    {
        match find_device(&self.devices, id) {
            Some(device) => {
                let mut device = device;
                device.status = DeviceStatus::Offline;
                let copy: DeviceInfo = copy_device(&device);
                insert_device(&mut self.devices, id.to_owned(), device);
                Some(ControlEvent::DeviceUpdated { device: copy })
            },
            None => None,
        }
    }
}

/// A device that registers for the first time.
fn newcomer(id: String, name: String, role: DeviceRole, now: u64) -> (r: DeviceInfo)
    ensures
        r@ == DeviceView::newcomer(id@, name@, role, now),
{
    let r: DeviceInfo = DeviceInfo {
        id,
        name,
        role,
        status: DeviceStatus::Online,
        assigned_streams: Vec::new(),
        volume: Level::unity(),
        last_seen: now,
    };
    assert(texts(r.assigned_streams@) =~= Seq::empty());
    r
}

/// Adds to the events a change of route for each stream of a list that another list
/// does not hold.
fn announce(
    events: &mut Vec<ControlEvent>,
    list: &Vec<String>,
    other: &Vec<String>,
    speaker_id: &str,
    connected: bool,
)
    ensures
        event_views(final(events)@) == event_views(old(events)@) + one_way(
            texts(list@),
            texts(other@),
            speaker_id@,
            connected,
        ),
{
    let ghost told = event_views(events@);
    let ghost names = texts(list@);
    let ghost others = texts(other@);
    let mut i: usize = 0;
    proof {
        reveal(Seq::filter);
        assert(names.take(0) =~= Seq::empty());
        assert(one_way(names.take(0), others, speaker_id@, connected) =~= Seq::empty());
    }
    while i < list.len()
        invariant
            i <= list@.len(),
            names == texts(list@),
            others == texts(other@),
            event_views(events@) =~= told + one_way(
                names.take(i as int),
                others,
                speaker_id@,
                connected,
            ),
        decreases list@.len() - i,
    {
        let ghost before = events@;
        proof {
            lemma_one_way_step(names, i as int, others, speaker_id@, connected);
        }
        if !lists(other, list[i].as_str()) {
            events.push(
                ControlEvent::RouteChanged {
                    source: list[i].clone(),
                    speaker_id: speaker_id.to_owned(),
                    connected,
                },
            );
            assert(event_views(events@) =~= event_views(before).push(
                EventView::RouteChanged {
                    source: names[i as int],
                    speaker_id: speaker_id@,
                    connected,
                },
            ));
        }
        i += 1;
    }
    assert(names.take(i as int) =~= names);
}

/// One more stream of a list, as changes of route.
proof fn lemma_one_way_step(
    names: Seq<Seq<char>>,
    i: int,
    others: Seq<Seq<char>>,
    speaker_id: Seq<char>,
    connected: bool,
)
    requires
        0 <= i < names.len(),
    ensures
        one_way(names.take(i + 1), others, speaker_id, connected) == (if others.contains(
            names[i],
        ) {
            one_way(names.take(i), others, speaker_id, connected)
        } else {
            one_way(names.take(i), others, speaker_id, connected).push(
                EventView::RouteChanged { source: names[i], speaker_id, connected },
            )
        }),
{
    let pred = |s: Seq<char>| !others.contains(s);
    assert(names.take(i + 1) =~= names.take(i).push(names[i]));
    names.take(i).lemma_filter_push(names[i], pred);
    assert(one_way(names.take(i + 1), others, speaker_id, connected) =~= (if others.contains(
        names[i],
    ) {
        one_way(names.take(i), others, speaker_id, connected)
    } else {
        one_way(names.take(i), others, speaker_id, connected).push(
            EventView::RouteChanged { source: names[i], speaker_id, connected },
        )
    }));
}

/// The devices after a sweep got as far as some keys.
spec fn partly_swept(
    devices: Map<Seq<char>, DeviceView>,
    done: Seq<Seq<char>>,
    now: u64,
) -> Map<Seq<char>, DeviceView> {
    Map::new(
        |k: Seq<char>|
            devices.contains_key(k) && !(done.contains(k) && devices[k].is_forgotten(now)),
        |k: Seq<char>|
            if done.contains(k) {
                devices[k].aged(now)
            } else {
                devices[k]
            },
    )
}

/// One more device of a sweep.
proof fn lemma_sweep_one(
    devices: Map<Seq<char>, DeviceView>,
    keys: Seq<Seq<char>>,
    i: int,
    now: u64,
)
    requires
        is_walk(keys, devices),
        0 <= i < keys.len(),
    ensures
        partly_swept(devices, keys.take(i + 1), now) == (if devices[keys[i]].is_forgotten(now) {
            partly_swept(devices, keys.take(i), now).remove(keys[i])
        } else if devices[keys[i]].drops_out(now) {
            partly_swept(devices, keys.take(i), now).insert(keys[i], devices[keys[i]].aged(now))
        } else {
            partly_swept(devices, keys.take(i), now)
        }),
        left_events(keys.take(i + 1), devices, now) == (if devices[keys[i]].is_forgotten(now) {
            left_events(keys.take(i), devices, now).push(EventView::DeviceLeft { id: keys[i] })
        } else {
            left_events(keys.take(i), devices, now)
        }),
        offline_events(keys.take(i + 1), devices, now) == (if devices[keys[i]].drops_out(now) {
            offline_events(keys.take(i), devices, now).push(
                EventView::DeviceUpdated { device: devices[keys[i]].aged(now) },
            )
        } else {
            offline_events(keys.take(i), devices, now)
        }),
{
    let k = keys[i];
    let done = keys.take(i);
    let more = keys.take(i + 1);
    assert(more =~= done.push(k));
    assert(keys.contains(k));
    assert(!done.contains(k));
    assert forall|x: Seq<char>| #[trigger] more.contains(x) <==> done.contains(x) || x == k by {
        if done.contains(x) {
            let j = choose|j: int| 0 <= j < done.len() && done[j] == x;
            assert(more[j] == x);
        }
        assert(more[i] == k);
    }
    done.lemma_filter_push(k, |x: Seq<char>| devices[x].is_forgotten(now));
    done.lemma_filter_push(k, |x: Seq<char>| devices[x].drops_out(now));
    assert(left_events(more, devices, now) =~= (if devices[k].is_forgotten(now) {
        left_events(done, devices, now).push(EventView::DeviceLeft { id: k })
    } else {
        left_events(done, devices, now)
    }));
    assert(offline_events(more, devices, now) =~= (if devices[k].drops_out(now) {
        offline_events(done, devices, now).push(
            EventView::DeviceUpdated { device: devices[k].aged(now) },
        )
    } else {
        offline_events(done, devices, now)
    }));
    assert(partly_swept(devices, more, now) =~= (if devices[k].is_forgotten(now) {
        partly_swept(devices, done, now).remove(k)
    } else if devices[k].drops_out(now) {
        partly_swept(devices, done, now).insert(k, devices[k].aged(now))
    } else {
        partly_swept(devices, done, now)
    }));
}

} // verus!

//! The devices of the hub and the events that tell of them.

use crate::level::Level;
use crate::text::{copy_list, texts};
use vstd::prelude::*;

verus! {

/// What a device is for.
#[derive(Clone, Copy, Debug, PartialEq, Eq, Structural)]
pub enum DeviceRole {
    Mic,
    Speaker,
    Manager,
}

/// Whether a device is there.
#[derive(Clone, Copy, Debug, PartialEq, Eq, Structural)]
pub enum DeviceStatus {
    Online,
    Offline,
    Live,
}

/// A device that registered with the hub.
#[derive(Debug)]
pub struct DeviceInfo {
    pub id: String,
    pub name: String,
    pub role: DeviceRole,
    pub status: DeviceStatus,
    pub assigned_streams: Vec<String>,
    pub volume: Level,
    /// When the device was last heard of, in milliseconds.
    pub last_seen: u64,
}

/// What the hub tells everyone who listens.
#[derive(Debug)]
pub enum ControlEvent {
    DeviceJoined { device: DeviceInfo },
    DeviceUpdated { device: DeviceInfo },
    DeviceLeft { id: String },
    StreamAdded { name: String },
    StreamRemoved { name: String },
    VolumeChanged { device_id: String, volume: Level },
    RouteChanged { source: String, speaker_id: String, connected: bool },
    SetVolume { device_id: String, stream: Option<String>, volume: Level },
}

/// A request to register a device.
#[derive(Debug)]
pub struct RegisterDeviceRequest {
    pub id: Option<String>,
    pub name: String,
    pub role: DeviceRole,
}

/// The value of `DeviceInfo`.
#[verifier::ext_equal]
pub struct DeviceView {
    pub id: Seq<char>,
    pub name: Seq<char>,
    pub role: DeviceRole,
    pub status: DeviceStatus,
    pub assigned_streams: Seq<Seq<char>>,
    pub volume: Level,
    pub last_seen: u64,
}

/// The value of `ControlEvent`.
#[verifier::ext_equal]
pub enum EventView {
    DeviceJoined { device: DeviceView },
    DeviceUpdated { device: DeviceView },
    DeviceLeft { id: Seq<char> },
    StreamAdded { name: Seq<char> },
    StreamRemoved { name: Seq<char> },
    VolumeChanged { device_id: Seq<char>, volume: Level },
    RouteChanged { source: Seq<char>, speaker_id: Seq<char>, connected: bool },
    SetVolume { device_id: Seq<char>, stream: Option<Seq<char>>, volume: Level },
}

impl View for DeviceInfo {
    type V = DeviceView;

    open spec fn view(&self) -> DeviceView {
        DeviceView {
            id: self.id@,
            name: self.name@,
            role: self.role,
            status: self.status,
            assigned_streams: texts(self.assigned_streams@),
            volume: self.volume,
            last_seen: self.last_seen,
        }
    }
}

impl View for ControlEvent {
    type V = EventView;

    open spec fn view(&self) -> EventView {
        match self {
            ControlEvent::DeviceJoined { device } => EventView::DeviceJoined { device: device@ },
            ControlEvent::DeviceUpdated { device } => EventView::DeviceUpdated { device: device@ },
            ControlEvent::DeviceLeft { id } => EventView::DeviceLeft { id: id@ },
            ControlEvent::StreamAdded { name } => EventView::StreamAdded { name: name@ },
            ControlEvent::StreamRemoved { name } => EventView::StreamRemoved { name: name@ },
            ControlEvent::VolumeChanged { device_id, volume } => EventView::VolumeChanged {
                device_id: device_id@,
                volume: *volume,
            },
            ControlEvent::RouteChanged {
                source,
                speaker_id,
                connected,
            } => EventView::RouteChanged {
                source: source@,
                speaker_id: speaker_id@,
                connected: *connected,
            },
            ControlEvent::SetVolume { device_id, stream, volume } => EventView::SetVolume {
                device_id: device_id@,
                stream: match stream {
                    Some(s) => Some(s@),
                    None => None,
                },
                volume: *volume,
            },
        }
    }
}

/// The values of a list of events.
pub open spec fn event_views(events: Seq<ControlEvent>) -> Seq<EventView> {
    events.map_values(|e: ControlEvent| e@)
}

/// The value of an event that may be missing.
pub open spec fn event_of(event: Option<ControlEvent>) -> Option<EventView> {
    match event {
        Some(e) => Some(e@),
        None => None,
    }
}

/// The values of a list of devices.
pub open spec fn device_views(devices: Seq<DeviceInfo>) -> Seq<DeviceView> {
    devices.map_values(|d: DeviceInfo| d@)
}

/// A copy of a device.
pub fn copy_device(device: &DeviceInfo) -> (r: DeviceInfo)
    ensures
        r@ == device@,
{
    DeviceInfo {
        id: device.id.clone(),
        name: device.name.clone(),
        role: device.role,
        status: device.status,
        assigned_streams: copy_list(&device.assigned_streams),
        volume: device.volume,
        last_seen: device.last_seen,
    }
}

} // verus!

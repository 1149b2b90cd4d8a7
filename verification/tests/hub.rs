use airlink::capture::start_answer;
use airlink::device::{ControlEvent, DeviceInfo, DeviceRole, DeviceStatus, RegisterDeviceRequest};
use airlink::hub::Hub;
use airlink::level::Level;

fn level(v: f32) -> Level {
    Level { bits: v.to_bits() }
}

fn request(id: Option<&str>, name: &str, role: DeviceRole) -> RegisterDeviceRequest {
    RegisterDeviceRequest { id: id.map(|s| s.to_string()), name: name.to_string(), role }
}

fn join(hub: &mut Hub, id: &str, name: &str, now: u64) -> DeviceInfo {
    hub.register_device(request(Some(id), name, DeviceRole::Speaker), now).0
}

fn device(hub: &Hub, id: &str) -> Option<DeviceInfo> {
    hub.list_devices().into_iter().find(|d| d.id == id)
}

fn ids(hub: &Hub) -> Vec<String> {
    let mut ids: Vec<String> = hub.list_devices().into_iter().map(|d| d.id).collect();
    ids.sort();
    ids
}

fn streams(names: &[&str]) -> Vec<String> {
    names.iter().map(|s| s.to_string()).collect()
}

fn routes(events: Vec<ControlEvent>) -> Vec<(String, String, bool)> {
    events
        .into_iter()
        .map(|e| match e {
            ControlEvent::RouteChanged { source, speaker_id, connected } => {
                (source, speaker_id, connected)
            }
            other => panic!("{:?}", other),
        })
        .collect()
}

#[test]
fn new_hub_is_empty() {
    let hub = Hub::new();
    assert!(hub.list_devices().is_empty());
    assert!(hub.list_streams().is_empty());
    assert_eq!(hub.stream_channel("x"), None);
    assert_eq!(hub.device_volume("x"), level(1.0));
}

#[test]
fn registering_files_a_new_device_online() {
    let mut hub = Hub::new();
    let (dev, event) = hub.register_device(request(Some("d1"), "Kitchen", DeviceRole::Speaker), 77);
    assert_eq!(dev.id, "d1");
    assert_eq!(dev.name, "Kitchen");
    assert_eq!(dev.role, DeviceRole::Speaker);
    assert_eq!(dev.status, DeviceStatus::Online);
    assert!(dev.assigned_streams.is_empty());
    assert_eq!(dev.volume, level(1.0));
    assert_eq!(dev.last_seen, 77);
    match event {
        ControlEvent::DeviceJoined { device } => assert_eq!(device.id, "d1"),
        other => panic!("{:?}", other),
    }
    assert_eq!(ids(&hub), vec!["d1"]);
}

#[test]
fn device_without_an_id_gets_a_fresh_one() {
    let mut hub = Hub::new();
    let (a, _) = hub.register_device(request(None, "A", DeviceRole::Mic), 0);
    let (b, _) = hub.register_device(request(None, "A", DeviceRole::Mic), 0);
    assert_eq!(a.id.len(), 36);
    assert_ne!(a.id, b.id);
    assert_eq!(hub.list_devices().len(), 2);
    let (c, _) = hub.register_device_at(
        request(None, "A", DeviceRole::Mic),
        "fresh".to_string(),
        5,
    );
    assert_eq!(c.id, "fresh");
}

#[test]
fn offline_device_is_taken_up_again() {
    let mut hub = Hub::new();
    join(&mut hub, "d1", "Kitchen", 0);
    hub.patch_device_volume("d1", level(0.25), 1).unwrap();
    hub.patch_device_streams("d1", streams(&["s"]), 2).unwrap();
    hub.disconnect("d1").unwrap();
    let (dev, _) = hub.register_device(request(Some("d2"), "Kitchen", DeviceRole::Speaker), 9);
    assert_eq!(dev.id, "d1");
    assert_eq!(dev.volume, level(0.25));
    assert_eq!(dev.assigned_streams, vec!["s"]);
    assert_eq!(dev.status, DeviceStatus::Online);
    assert_eq!(dev.last_seen, 9);
    assert_eq!(ids(&hub), vec!["d1"]);
}

#[test]
fn other_names_roles_and_online_devices_are_not_taken_up() {
    let mut hub = Hub::new();
    join(&mut hub, "d1", "Kitchen", 0);
    let (dev, _) = hub.register_device(request(Some("d2"), "Kitchen", DeviceRole::Speaker), 1);
    assert_eq!(dev.id, "d2");
    hub.disconnect("d1");
    hub.disconnect("d2");
    let (dev, _) = hub.register_device(request(Some("d3"), "Kitchen", DeviceRole::Mic), 1);
    assert_eq!(dev.id, "d3");
    let (dev, _) = hub.register_device(request(Some("d4"), "Attic", DeviceRole::Speaker), 1);
    assert_eq!(dev.id, "d4");
    assert_eq!(ids(&hub), vec!["d1", "d2", "d3", "d4"]);
}

#[test]
fn removing_a_device_tells_it_even_if_unknown() {
    let mut hub = Hub::new();
    join(&mut hub, "d1", "Kitchen", 0);
    for _ in 0..2 {
        match hub.remove_device("d1") {
            ControlEvent::DeviceLeft { id } => assert_eq!(id, "d1"),
            other => panic!("{:?}", other),
        }
        assert!(hub.list_devices().is_empty());
    }
}

#[test]
fn streams_are_added_found_and_removed() {
    let mut hub = Hub::new();
    let (replaced, event) = hub.add_stream("mic", 4);
    assert_eq!(replaced, None);
    assert!(matches!(event, ControlEvent::StreamAdded { name } if name == "mic"));
    assert_eq!(hub.stream_channel("mic"), Some(4));
    let (replaced, _) = hub.add_stream("mic", 5);
    assert_eq!(replaced, Some(4));
    hub.add_stream("tv", 6);
    let mut names = hub.list_streams();
    names.sort();
    assert_eq!(names, vec!["mic", "tv"]);
    let (removed, event) = hub.remove_stream("mic");
    assert_eq!(removed, Some(5));
    assert!(matches!(event, ControlEvent::StreamRemoved { name } if name == "mic"));
    assert_eq!(hub.stream_channel("mic"), None);
    let (removed, event) = hub.remove_stream("mic");
    assert_eq!(removed, None);
    assert!(matches!(event, ControlEvent::StreamRemoved { name } if name == "mic"));
    assert_eq!(hub.list_streams(), vec!["tv"]);
}

#[test]
fn system_capture_starts_once() {
    let mut hub = Hub::new();
    let told = hub.start_system_capture(3);
    assert_eq!(start_answer(&told), "System stream started.");
    match told {
        Some(ControlEvent::StreamAdded { name }) => assert_eq!(name, "system"),
        other => panic!("{:?}", other),
    }
    assert_eq!(hub.stream_channel("system"), Some(3));
    let told = hub.start_system_capture(4);
    assert!(told.is_none());
    assert_eq!(start_answer(&told), "System stream already running.");
    assert_eq!(hub.stream_channel("system"), Some(3));
    hub.remove_stream("system");
    assert!(hub.start_system_capture(5).is_some());
}

#[test]
fn player_joins_as_a_device_with_a_stream() {
    let mut hub = Hub::new();
    let (replaced, events) = hub.add_player(9, 123);
    assert_eq!(replaced, None);
    assert_eq!(events.len(), 2);
    match &events[0] {
        ControlEvent::DeviceJoined { device } => {
            assert_eq!(device.id, "bgm-server-player");
            assert_eq!(device.name, "BGM Player");
            assert_eq!(device.role, DeviceRole::Mic);
            assert_eq!(device.last_seen, 123);
        }
        other => panic!("{:?}", other),
    }
    assert!(matches!(&events[1], ControlEvent::StreamAdded { name } if name == "BGM Player"));
    assert_eq!(hub.stream_channel("BGM Player"), Some(9));
    assert_eq!(hub.device_volume("bgm-server-player"), level(1.0));
    assert_eq!(hub.add_player(10, 124).0, Some(9));
    assert_eq!(hub.stream_channel("BGM Player"), Some(10));
}

#[test]
fn volume_of_a_device_is_held_and_told_twice() {
    let mut hub = Hub::new();
    join(&mut hub, "d1", "Kitchen", 0);
    let events = hub.patch_device_volume("d1", level(3.5), 44).unwrap();
    assert_eq!(events.len(), 2);
    assert!(matches!(&events[0],
        ControlEvent::VolumeChanged { device_id, volume } if device_id == "d1" && *volume == level(2.0)));
    assert!(matches!(&events[1],
        ControlEvent::SetVolume { device_id, stream: None, volume } if device_id == "d1" && *volume == level(2.0)));
    assert_eq!(hub.device_volume("d1"), level(2.0));
    assert_eq!(device(&hub, "d1").unwrap().last_seen, 44);
    hub.patch_device_volume("d1", level(-1.0), 45);
    assert_eq!(hub.device_volume("d1"), level(0.0));
    hub.patch_device_volume("d1", level(0.5), 46);
    assert_eq!(hub.device_volume("d1"), level(0.5));
}

#[test]
fn volume_of_a_stream_is_only_told() {
    let mut hub = Hub::new();
    hub.add_stream("tv", 1);
    let events = hub.patch_device_volume("tv", level(9.0), 1).unwrap();
    assert_eq!(events.len(), 1);
    assert!(matches!(&events[0],
        ControlEvent::SetVolume { device_id, stream: None, volume } if device_id == "tv" && *volume == level(2.0)));
    assert!(hub.patch_device_volume("radio", level(1.0), 1).is_none());
}

#[test]
fn routes_tell_the_difference() {
    let mut hub = Hub::new();
    join(&mut hub, "d1", "Kitchen", 0);
    let events = hub.patch_device_streams("d1", streams(&["a", "b"]), 10).unwrap();
    assert_eq!(
        routes(events),
        vec![("a".into(), "d1".into(), true), ("b".into(), "d1".into(), true)]
    );
    let events = hub.patch_device_streams("d1", streams(&["b", "c"]), 11).unwrap();
    assert_eq!(
        routes(events),
        vec![("c".into(), "d1".into(), true), ("a".into(), "d1".into(), false)]
    );
    let events = hub.patch_device_streams("d1", streams(&["c", "b"]), 12).unwrap();
    assert!(events.is_empty());
    assert_eq!(device(&hub, "d1").unwrap().assigned_streams, vec!["c", "b"]);
    assert_eq!(device(&hub, "d1").unwrap().last_seen, 12);
    assert!(hub.patch_device_streams("d9", streams(&["a"]), 1).is_none());
}

#[test]
fn repeated_streams_are_told_each_time() {
    let mut hub = Hub::new();
    join(&mut hub, "d1", "Kitchen", 0);
    let events = hub.patch_device_streams("d1", streams(&["a", "a"]), 10).unwrap();
    assert_eq!(events.len(), 2);
}

#[test]
fn sweep_marks_and_forgets_at_the_bounds() {
    let mut hub = Hub::new();
    join(&mut hub, "d1", "Kitchen", 1_000);
    assert!(hub.sweep(16_000).is_empty());
    assert_eq!(device(&hub, "d1").unwrap().status, DeviceStatus::Online);
    let events = hub.sweep(16_001);
    assert_eq!(events.len(), 1);
    match &events[0] {
        ControlEvent::DeviceUpdated { device } => {
            assert_eq!(device.id, "d1");
            assert_eq!(device.status, DeviceStatus::Offline);
            assert_eq!(device.last_seen, 1_000);
        }
        other => panic!("{:?}", other),
    }
    assert!(hub.sweep(16_001).is_empty());
    assert!(hub.sweep(301_000).is_empty());
    assert_eq!(ids(&hub), vec!["d1"]);
    let events = hub.sweep(301_001);
    assert_eq!(events.len(), 1);
    assert!(matches!(&events[0], ControlEvent::DeviceLeft { id } if id == "d1"));
    assert!(hub.list_devices().is_empty());
}

#[test]
fn sweep_tells_who_left_before_who_is_offline() {
    let mut hub = Hub::new();
    join(&mut hub, "old1", "A", 0);
    join(&mut hub, "old2", "B", 10);
    join(&mut hub, "quiet", "C", 280_000);
    join(&mut hub, "here", "D", 400_000);
    let events = hub.sweep(400_500);
    assert_eq!(events.len(), 3);
    let mut left: Vec<String> = events[..2]
        .iter()
        .map(|e| match e {
            ControlEvent::DeviceLeft { id } => id.clone(),
            other => panic!("{:?}", other),
        })
        .collect();
    left.sort();
    assert_eq!(left, vec!["old1", "old2"]);
    assert!(matches!(&events[2], ControlEvent::DeviceUpdated { device } if device.id == "quiet"));
    assert_eq!(ids(&hub), vec!["here", "quiet"]);
}

#[test]
fn sweep_ignores_clocks_that_run_backwards() {
    let mut hub = Hub::new();
    join(&mut hub, "d1", "Kitchen", 500_000);
    assert!(hub.sweep(0).is_empty());
    assert_eq!(device(&hub, "d1").unwrap().status, DeviceStatus::Online);
}

#[test]
fn heartbeat_brings_a_device_back() {
    let mut hub = Hub::new();
    join(&mut hub, "d1", "Kitchen", 0);
    assert!(hub.heartbeat("d1", 5).is_none());
    assert_eq!(device(&hub, "d1").unwrap().last_seen, 5);
    hub.sweep(20_000);
    assert_eq!(device(&hub, "d1").unwrap().status, DeviceStatus::Offline);
    match hub.heartbeat("d1", 20_100) {
        Some(ControlEvent::DeviceUpdated { device }) => {
            assert_eq!(device.status, DeviceStatus::Online);
            assert_eq!(device.last_seen, 20_100);
        }
        other => panic!("{:?}", other),
    }
    assert!(hub.sweep(35_100).is_empty());
    assert_eq!(device(&hub, "d1").unwrap().status, DeviceStatus::Online);
    assert!(hub.heartbeat("d9", 1).is_none());
}

#[test]
fn lost_connection_marks_a_device_offline() {
    let mut hub = Hub::new();
    join(&mut hub, "d1", "Kitchen", 3);
    for _ in 0..2 {
        match hub.disconnect("d1") {
            Some(ControlEvent::DeviceUpdated { device }) => {
                assert_eq!(device.status, DeviceStatus::Offline);
                assert_eq!(device.last_seen, 3);
            }
            other => panic!("{:?}", other),
        }
    }
    assert!(hub.disconnect("d9").is_none());
}

#[test]
fn lost_device_comes_back_as_it_was() {
    let mut hub = Hub::new();
    join(&mut hub, "d1", "Kitchen", 3);
    hub.patch_device_volume("d1", level(0.75), 4).unwrap();
    hub.patch_device_streams("d1", streams(&["s"]), 5).unwrap();
    hub.disconnect("d1").unwrap();
    match hub.heartbeat("d1", 9) {
        Some(ControlEvent::DeviceUpdated { device }) => {
            assert_eq!(device.status, DeviceStatus::Online);
            assert_eq!(device.volume, level(0.75));
            assert_eq!(device.assigned_streams, vec!["s"]);
            assert_eq!(device.last_seen, 9);
        }
        other => panic!("{:?}", other),
    }
}

#[test]
fn snapshot_holds_each_stream_and_device_once() {
    let mut hub = Hub::new();
    let empty = hub.snapshot();
    assert!(empty.streams.is_empty() && empty.devices.is_empty());
    join(&mut hub, "d1", "Kitchen", 1);
    join(&mut hub, "d2", "Attic", 2);
    hub.add_stream("tv", 1);
    hub.add_stream("mic", 2);
    let mut snapshot = hub.snapshot();
    snapshot.streams.sort();
    assert_eq!(snapshot.streams, vec!["mic", "tv"]);
    snapshot.devices.sort_by_key(|d| d.last_seen);
    let seen: Vec<(&str, &str)> =
        snapshot.devices.iter().map(|d| (d.id.as_str(), d.name.as_str())).collect();
    assert_eq!(seen, vec![("d1", "Kitchen"), ("d2", "Attic")]);
}

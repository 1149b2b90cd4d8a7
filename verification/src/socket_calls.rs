//! What each turn of a connection does, said of the calls that make it.

use crate::device::{event_of, ControlEvent, DeviceStatus, DeviceView, EventView};
use crate::hub::Hub;
use crate::json::{json_number_at, json_text_at};
use crate::sockets::{
    receiver_step, sender_step, ActionView, ControlSession, ReceiverAction, ReceiverEvent,
    SenderAction, SenderMessage, SocketAction, SocketEvent,
};
use crate::text::text_of;
use vstd::prelude::*;

verus! {

/// A connection that was just opened belongs to no device and waits for no answer.
pub proof fn law_new_session_knows_nothing(r: ControlSession)
    requires
        call_ensures(ControlSession::new, (), r),
    ensures
        r.device_id is None,
        r.pong_deadline is None,
{
}

/// A heartbeat that names its device makes that device online and heard of now, where
/// the hub has it, and is told where it was offline; the session belongs to the first
/// device that it heard of. Nothing else changes, of the hub or of the session.
pub proof fn law_heartbeat_reaches_its_device(
    session: &mut ControlSession,
    hub: &mut Hub,
    kind: Option<String>,
    device_id: Option<String>,
    ts: Option<u64>,
    now_ms: u64,
    r: SocketAction,
)
    requires
        call_ensures(ControlSession::hear, (session, hub, kind, device_id, ts, now_ms), r),
        text_of(kind) == Some("heartbeat"@),
    ensures
        final(session)@.pong_deadline == old(session)@.pong_deadline,
        final(hub)@.streams == old(hub)@.streams,
        device_id is None ==> {
            &&& final(session)@.device_id == old(session)@.device_id
            &&& final(hub)@.devices == old(hub)@.devices
            &&& r@ == ActionView::Wait
        },
        device_id matches Some(id) ==> {
            let known = old(hub)@.devices.contains_key(id@);
            let is = DeviceView {
                status: DeviceStatus::Online,
                last_seen: now_ms,
                ..old(hub)@.devices[id@]
            };
            &&& final(session)@.device_id == (if old(session)@.device_id is None {
                Some(id@)
            } else {
                old(session)@.device_id
            })
            &&& known ==> final(hub)@.devices == old(hub)@.devices.insert(id@, is)
            &&& !known ==> final(hub)@.devices == old(hub)@.devices
            &&& r@ == (if known && old(hub)@.devices[id@].status == DeviceStatus::Offline {
                ActionView::Publish(EventView::DeviceUpdated { device: is })
            } else {
                ActionView::Wait
            })
        },
{
    reveal_strlit("heartbeat");
    reveal_strlit("ping");
    assert("heartbeat"@.len() != "ping"@.len());
}

/// A ping is answered with its own time stamp, where it has one. Neither a ping nor any
/// other message but a heartbeat changes anything, and any other is ignored.
pub proof fn law_ping_gets_its_stamp_back(
    session: &mut ControlSession,
    hub: &mut Hub,
    kind: Option<String>,
    device_id: Option<String>,
    ts: Option<u64>,
    now_ms: u64,
    r: SocketAction,
)
    requires
        call_ensures(ControlSession::hear, (session, hub, kind, device_id, ts, now_ms), r),
        text_of(kind) != Some("heartbeat"@),
    ensures
        final(session)@ == old(session)@,
        final(hub)@ == old(hub)@,
        r@ == (if text_of(kind) == Some("ping"@) && ts is Some {
            ActionView::Answer { ts: ts->Some_0 }
        } else {
            ActionView::Wait
        }),
{
}

/// A text is heard by its fields: a heartbeat goes by `type` and `device_id`, a ping by
/// `type` and `ts`. What is heard is what hearing these fields gives.
pub proof fn law_text_is_heard_by_its_fields(
    session: &mut ControlSession,
    hub: &mut Hub,
    text: String,
    now_ms: u64,
    r: SocketAction,
)
    requires
        call_ensures(
            ControlSession::step,
            (session, hub, SocketEvent::Text { text, now_ms }),
            r,
        ),
    ensures
        ({
            let kind = json_text_at(text@, "type"@);
            let id = json_text_at(text@, "device_id"@);
            let ts = json_number_at(text@, "ts"@);
            let beats = kind == Some("heartbeat"@) && id is Some;
            let known = beats && old(hub)@.devices.contains_key(id->Some_0);
            let is = DeviceView {
                status: DeviceStatus::Online,
                last_seen: now_ms,
                ..old(hub)@.devices[id->Some_0]
            };
            &&& final(session)@.pong_deadline == old(session)@.pong_deadline
            &&& final(session)@.device_id == (if beats && old(session)@.device_id is None {
                id
            } else {
                old(session)@.device_id
            })
            &&& final(hub)@.streams == old(hub)@.streams
            &&& known ==> final(hub)@.devices == old(hub)@.devices.insert(id->Some_0, is)
            &&& !known ==> final(hub)@.devices == old(hub)@.devices
            &&& r@ == (if known && old(hub)@.devices[id->Some_0].status == DeviceStatus::Offline {
                ActionView::Publish(EventView::DeviceUpdated { device: is })
            } else if kind == Some("ping"@) && ts is Some {
                ActionView::Answer { ts: ts->Some_0 }
            } else {
                ActionView::Wait
            })
        }),
{
    reveal_strlit("heartbeat");
    reveal_strlit("ping");
    assert("heartbeat"@.len() != "ping"@.len());
}

/// At a tick a ping is sent, unless one should have been answered by now: then the
/// connection ends. A ping that was sent is to be answered within eight seconds, unless
/// an earlier one is still to be answered; an answer clears that; a ping that could not
/// be sent ends the connection. None of it changes the hub or the device.
pub proof fn law_pings_are_answered_in_time(
    session: &mut ControlSession,
    hub: &mut Hub,
    event: SocketEvent,
    r: SocketAction,
)
    requires
        call_ensures(ControlSession::step, (session, hub, event), r),
        !(event is Text),
    ensures
        final(hub)@ == old(hub)@,
        final(session)@.device_id == old(session)@.device_id,
        event matches SocketEvent::Tick { now } ==> {
            &&& final(session)@.pong_deadline == old(session)@.pong_deadline
            &&& r@ == (match old(session)@.pong_deadline {
                Some(deadline) => if now > deadline {
                    ActionView::Stop
                } else {
                    ActionView::Ping
                },
                None => ActionView::Ping,
            })
        },
        event matches SocketEvent::PingSent { ok, now } ==> {
            &&& r@ == (if ok {
                ActionView::Wait
            } else {
                ActionView::Stop
            })
            &&& !ok || old(session)@.pong_deadline is Some ==> final(session)@.pong_deadline
                == old(session)@.pong_deadline
            &&& ok && old(session)@.pong_deadline is None && now + 8_000_000_000 <= u64::MAX
                ==> final(session)@.pong_deadline is Some && final(session)@.pong_deadline->Some_0 == now + 8_000_000_000
        },
        event == SocketEvent::Pong ==> final(session)@.pong_deadline is None && r@
            == ActionView::Wait,
        !(event is PingSent) && event != SocketEvent::Pong ==> final(session)@.pong_deadline
            == old(session)@.pong_deadline,
{
}

/// Each event of the hub is forwarded; one that could not be sent ends the connection,
/// and so does the end of the bus or of the connection itself. Losing events, and
/// anything else that comes, ends nothing and is not answered.
pub proof fn law_bus_goes_on_until_it_is_closed(
    session: &mut ControlSession,
    hub: &mut Hub,
    event: SocketEvent,
    r: SocketAction,
)
    requires
        call_ensures(ControlSession::step, (session, hub, event), r),
    ensures
        r@ == ActionView::Forward <==> event == SocketEvent::Published,
        event matches SocketEvent::Forwarded { ok } ==> r@ == (if ok {
            ActionView::Wait
        } else {
            ActionView::Stop
        }),
        event == SocketEvent::BusClosed || event == SocketEvent::Closed ==> r@ == ActionView::Stop,
        event == SocketEvent::Lagged || event == SocketEvent::Other ==> r@ == ActionView::Wait,
        r@ == ActionView::Ping ==> event is Tick,
        r@ is Publish || r@ is Answer ==> event is Text,
{
}

/// The end of a connection makes its device offline, where it has one that the hub has,
/// and tells so; it changes nothing else.
pub proof fn law_end_of_a_session_is_told(
    session: &ControlSession,
    hub: &mut Hub,
    r: Option<ControlEvent>,
)
    requires
        call_ensures(ControlSession::close, (session, hub), r),
    ensures
        final(hub)@.streams == old(hub)@.streams,
        ({
            let known = session@.device_id is Some && old(hub)@.devices.contains_key(
                session@.device_id->Some_0,
            );
            let id = session@.device_id->Some_0;
            let is = DeviceView { status: DeviceStatus::Offline, ..old(hub)@.devices[id] };
            &&& known ==> final(hub)@.devices == old(hub)@.devices.insert(id, is) && event_of(r)
                == Some(EventView::DeviceUpdated { device: is })
            &&& !known ==> final(hub)@.devices == old(hub)@.devices && r is None
        }),
{
}

/// A sender's sound is passed on, its pings are answered, and its connection ends where
/// it is closed, fails or is gone, and at nothing else.
pub proof fn law_sender_is_served(message: SenderMessage, r: SenderAction)
    requires
        call_ensures(sender_step, (message,), r),
    ensures
        r == SenderAction::Broadcast <==> message == SenderMessage::Binary,
        r == SenderAction::Answer <==> message == SenderMessage::Ping,
        r == SenderAction::Stop <==> message == SenderMessage::Close || message
            == SenderMessage::Failed || message == SenderMessage::Ended,
{
}

/// Sound is sent on to a receiver, and its connection ends where the stream ends, where
/// it is closed or gone, or where sound could not be sent, and at nothing else.
pub proof fn law_receiver_is_served(event: ReceiverEvent, r: ReceiverAction)
    requires
        call_ensures(receiver_step, (event,), r),
    ensures
        r == ReceiverAction::Forward <==> event == ReceiverEvent::Sound,
        r == ReceiverAction::Stop <==> event == ReceiverEvent::StreamEnded || event
            == ReceiverEvent::Closed || event == (ReceiverEvent::Forwarded { ok: false }),
{
}

} // verus!

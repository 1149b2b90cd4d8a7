//! The connections of the hub: the control bus, and those that send and receive
//! sound.

use crate::device::{event_of, ControlEvent, DeviceStatus, EventView};
use crate::hub::{Hub, HubView};
use crate::json::{json_number, json_number_at, json_text, json_text_at};
use crate::text::{same_text, text_of};
use vstd::prelude::*;

verus! {

/// How long a ping may stay unanswered, in nanoseconds.
pub const PONG_WITHIN: u64 = 8_000_000_000;

/// A connection to the control bus.
#[derive(Debug)]
pub struct ControlSession {
    /// The device at the other end, once it has told its id.
    pub device_id: Option<String>,
    /// By when a ping is to be answered, in nanoseconds: the first that was sent since
    /// the last answer.
    pub pong_deadline: Option<u64>,
}

/// What can happen to a connection to the control bus.
#[derive(Debug)]
pub enum SocketEvent {
    /// An event of the hub came in.
    Published,
    /// Events of the hub were lost before they could be read.
    Lagged,
    /// No further event of the hub will come.
    BusClosed,
    /// An event was sent to the other end, or could not be.
    Forwarded { ok: bool },
    /// It is time for a ping; `now` counts nanoseconds.
    Tick { now: u64 },
    /// A ping was sent, or could not be; `now` counts nanoseconds.
    PingSent { ok: bool, now: u64 },
    /// A text came from the other end; `now_ms` counts milliseconds.
    Text { text: String, now_ms: u64 },
    /// A ping was answered.
    Pong,
    /// The other end closed the connection, or it is gone.
    Closed,
    /// Anything else came from the other end.
    Other,
}

/// What is to be done about a connection to the control bus.
#[derive(Debug)]
pub enum SocketAction {
    /// Wait for what happens next.
    Wait,
    /// Send the event of the hub to the other end.
    Forward,
    /// Send a ping.
    Ping,
    /// Publish an event to everyone.
    Publish(ControlEvent),
    /// Answer a ping that the other end sent as a text.
    Answer { ts: u64 },
    /// End the connection.
    Stop,
}

/// The value of `ControlSession`.
pub struct SessionView {
    pub device_id: Option<Seq<char>>,
    pub pong_deadline: Option<u64>,
}

/// The value of `SocketAction`.
pub enum ActionView {
    Wait,
    Forward,
    Ping,
    Publish(EventView),
    Answer { ts: u64 },
    Stop,
}

/// What a text from the other end says, as far as the hub reads it.
pub struct Message {
    pub kind: Option<Seq<char>>,
    pub device_id: Option<Seq<char>>,
    pub ts: Option<u64>,
}

impl View for ControlSession {
    type V = SessionView;

    open spec fn view(&self) -> SessionView {
        SessionView { device_id: text_of(self.device_id), pong_deadline: self.pong_deadline }
    }
}

impl View for SocketAction {
    type V = ActionView;

    open spec fn view(&self) -> ActionView {
        match self {
            SocketAction::Wait => ActionView::Wait,
            SocketAction::Forward => ActionView::Forward,
            SocketAction::Ping => ActionView::Ping,
            SocketAction::Publish(event) => ActionView::Publish(event@),
            SocketAction::Answer { ts } => ActionView::Answer { ts: *ts },
            SocketAction::Stop => ActionView::Stop,
        }
    }
}

impl Message {
    /// The message in a text.
    pub open spec fn read(text: Seq<char>) -> Message {
        Message {
            kind: json_text_at(text, "type"@),
            device_id: json_text_at(text, "device_id"@),
            ts: json_number_at(text, "ts"@),
        }
    }

    /// The device that a heartbeat comes from.
    pub open spec fn heartbeat(self) -> Option<Seq<char>> {
        if self.kind == Some("heartbeat"@) {
            self.device_id
        } else {
            None
        }
    }

    /// The time stamp that a ping asks to have back.
    pub open spec fn ping(self) -> Option<u64> {
        if self.kind == Some("ping"@) {
            self.ts
        } else {
            None
        }
    }

    /// The hub after the message.
    pub open spec fn hub_after(self, hub: HubView, now: u64) -> HubView {
        match self.heartbeat() {
            Some(id) => hub.heard(id, now),
            None => hub,
        }
    }

    /// What is to be done about the message.
    pub open spec fn action(self, hub: HubView, now: u64) -> ActionView {
        match self.heartbeat() {
            Some(id) => match hub.heard_event(id, now) {
                Some(event) => ActionView::Publish(event),
                None => ActionView::Wait,
            },
            None => match self.ping() {
                Some(ts) => ActionView::Answer { ts },
                None => ActionView::Wait,
            },
        }
    }
}

impl SessionView {
    /// The session after a message: it belongs to the device that it heard of first.
    pub open spec fn after_message(self, message: Message) -> SessionView {
        SessionView {
            device_id: if self.device_id is Some {
                self.device_id
            } else {
                message.heartbeat()
            },
            ..self
        }
    }

    /// A ping should have been answered by now.
    pub open spec fn overdue(self, now: u64) -> bool {
        self.pong_deadline matches Some(deadline) && now > deadline
    }

    /// The session after an event. A ping that was sent sets the deadline for its
    /// answer, unless an earlier one is still to be answered.
    pub open spec fn after(self, event: SocketEvent) -> SessionView {
        match event {
            SocketEvent::PingSent { ok: true, now } => SessionView {
                pong_deadline: if self.pong_deadline is Some {
                    self.pong_deadline
                } else {
                    Some((now + PONG_WITHIN) as u64)
                },
                ..self
            },
            SocketEvent::Text { text, .. } => self.after_message(Message::read(text@)),
            SocketEvent::Pong => SessionView { pong_deadline: None, ..self },
            _ => self,
        }
    }

    /// The session after several events, one after the other.
    pub open spec fn after_all(self, events: Seq<SocketEvent>) -> SessionView
        decreases events.len(),
    {
        if events.len() == 0 {
            self
        } else {
            self.after_all(events.drop_last()).after(events.last())
        }
    }

    /// What is forwarded of all that happens to the connection, each event with what it
    /// brings: what each event asks is done, until one asks to stop.
    pub open spec fn forwarded_events<E>(self, hub: HubView, events: Seq<(SocketEvent, E)>) -> Seq<E>
        decreases events.len(),
    {
        if events.len() == 0 {
            Seq::empty()
        } else {
            let event = events.first().0;
            let later = self.after(event).forwarded_events(
                self.hub_after(hub, event),
                events.drop_first(),
            );
            match self.action(hub, event) {
                ActionView::Stop => Seq::empty(),
                ActionView::Forward => seq![events.first().1] + later,
                _ => later,
            }
        }
    }

    /// How many events come before the one that ends the connection.
    pub open spec fn events_served<E>(self, hub: HubView, events: Seq<(SocketEvent, E)>) -> nat
        decreases events.len(),
    {
        if events.len() == 0 || self.action(hub, events.first().0) == ActionView::Stop {
            0
        } else {
            let event = events.first().0;
            1 + self.after(event).events_served(self.hub_after(hub, event), events.drop_first())
        }
    }

    /// The hub after the connection has ended: its device is offline.
    pub open spec fn hub_closed(self, hub: HubView) -> HubView {
        match self.device_id {
            Some(id) => hub.lost(id),
            None => hub,
        }
    }

    /// The hub after an event.
    pub open spec fn hub_after(self, hub: HubView, event: SocketEvent) -> HubView {
        match event {
            SocketEvent::Text { text, now_ms } => Message::read(text@).hub_after(hub, now_ms),
            _ => hub,
        }
    }

    /// What is to be done after an event.
    pub open spec fn action(self, hub: HubView, event: SocketEvent) -> ActionView {
        match event {
            SocketEvent::Published => ActionView::Forward,
            SocketEvent::Forwarded { ok } | SocketEvent::PingSent { ok, .. } => if ok {
                ActionView::Wait
            } else {
                ActionView::Stop
            },
            SocketEvent::Tick { now } => if self.overdue(now) {
                ActionView::Stop
            } else {
                ActionView::Ping
            },
            SocketEvent::Text { text, now_ms } => Message::read(text@).action(hub, now_ms),
            SocketEvent::BusClosed | SocketEvent::Closed => ActionView::Stop,
            SocketEvent::Lagged | SocketEvent::Pong | SocketEvent::Other => ActionView::Wait,
        }
    }
}

/// The events alone, of events and what they bring.
pub open spec fn kinds<E>(events: Seq<(SocketEvent, E)>) -> Seq<SocketEvent> {
    events.map_values(|e: (SocketEvent, E)| e.0)
}

/// Whether a string is there and holds a text.
fn holds(s: &Option<String>, text: &str) -> (r: bool)
    ensures
        r == (text_of(*s) == Some(text@)),
{
    match s {
        Some(t) => same_text(t.as_str(), text),
        None => false,
    }
}

impl ControlSession {
    /// A connection that was just opened.
    pub fn new() -> (r: ControlSession)
        ensures
            r@ == (SessionView { device_id: None, pong_deadline: None }),
    {
        ControlSession { device_id: None, pong_deadline: None }
    }

    /// Takes in a message of the other end, read from its text.
    pub fn hear(
        &mut self,
        hub: &mut Hub,
        kind: Option<String>,
        device_id: Option<String>,
        ts: Option<u64>,
        now_ms: u64,
    ) -> (r: SocketAction)
        ensures
            ({
                let message = Message {
                    kind: text_of(kind),
                    device_id: text_of(device_id),
                    ts,
                };
                &&& final(self)@ == old(self)@.after_message(message)
                &&& final(hub)@ == message.hub_after(old(hub)@, now_ms)
                &&& r@ == message.action(old(hub)@, now_ms)
            }),
    {
        if holds(&kind, "heartbeat") {
            proof {
                reveal_strlit("heartbeat");
                reveal_strlit("ping");
                assert("heartbeat"@.len() != "ping"@.len());
            }
            if let Some(id) = device_id {
                let event: Option<ControlEvent> = hub.heartbeat(id.as_str(), now_ms);
                if self.device_id.is_none() {
                    self.device_id = Some(id);
                }
                match event {
                    Some(e) => SocketAction::Publish(e),
                    None => SocketAction::Wait,
                }
            } else {
                SocketAction::Wait
            }
        } else if holds(&kind, "ping") {
            match ts {
                Some(ts) => SocketAction::Answer { ts },
                None => SocketAction::Wait,
            }
        } else {
            SocketAction::Wait
        }
    }

    /// One turn of the loop that serves the connection.
    pub fn step(&mut self, hub: &mut Hub, event: SocketEvent) -> (r: SocketAction)
        requires
            old(self)@.pong_deadline is None ==> (event matches SocketEvent::PingSent {
                ok: true,
                now,
            } ==> now + PONG_WITHIN <= u64::MAX),
        ensures
            final(self)@ == old(self)@.after(event),
            final(hub)@ == old(self)@.hub_after(old(hub)@, event),
            r@ == old(self)@.action(old(hub)@, event),
    {
        match event {
            SocketEvent::Published => SocketAction::Forward,
            SocketEvent::Lagged => SocketAction::Wait,
            SocketEvent::BusClosed => SocketAction::Stop,
            SocketEvent::Forwarded { ok } => {
                if ok {
                    SocketAction::Wait
                } else {
                    SocketAction::Stop
                }
            },
            SocketEvent::Tick { now } => match self.pong_deadline {
                Some(deadline) if now > deadline => SocketAction::Stop,
                _ => SocketAction::Ping,
            },
            SocketEvent::PingSent { ok, now } => {
                if ok {
                    if self.pong_deadline.is_none() {
                        self.pong_deadline = Some(now + PONG_WITHIN);
                    }
                    SocketAction::Wait
                } else {
                    SocketAction::Stop
                }
            },
            SocketEvent::Text { text, now_ms } => {
                let kind: Option<String> = json_text(text.as_str(), "type");
                let device_id: Option<String> = json_text(text.as_str(), "device_id");
                let ts: Option<u64> = json_number(text.as_str(), "ts");
                self.hear(hub, kind, device_id, ts, now_ms)
            },
            SocketEvent::Pong => {
                self.pong_deadline = None;
                SocketAction::Wait
            },
            SocketEvent::Closed => SocketAction::Stop,
            SocketEvent::Other => SocketAction::Wait,
        }
    }

    /// Ends the connection: its device is offline. What is told is in the result.
    pub fn close(&self, hub: &mut Hub) -> (r: Option<ControlEvent>)
        ensures
            final(hub)@ == self@.hub_closed(old(hub)@),
            event_of(r) == (match self@.device_id {
                Some(id) => old(hub)@.lost_event(id),
                None => None,
            }),
    {
        match &self.device_id {
            Some(id) => hub.disconnect(id.as_str()),
            None => None,
        }
    }
}

/// What some items of a list bring, in their order.
pub open spec fn brought<K, F>(items: Seq<(K, F)>, wanted: spec_fn((K, F)) -> bool) -> Seq<F> {
    items.filter(wanted).map_values(|item: (K, F)| item.1)
}

/// What a connection that sends sound delivers.
#[derive(Clone, Copy, Debug, PartialEq, Eq, Structural)]
pub enum SenderMessage {
    Binary,
    Ping,
    Pong,
    Close,
    Other,
    /// Reading failed.
    Failed,
    /// The connection is gone.
    Ended,
}

/// What is to be done about a connection that sends sound.
#[derive(Clone, Copy, Debug, PartialEq, Eq, Structural)]
pub enum SenderAction {
    /// Pass the sound on to everyone who listens.
    Broadcast,
    /// Answer the ping.
    Answer,
    /// Wait for the next message.
    Wait,
    /// End the connection, and the stream with it.
    Stop,
}

/// What a message asks to be done about a connection that sends sound.
pub open spec fn sender_action(message: SenderMessage) -> SenderAction {
    match message {
        SenderMessage::Binary => SenderAction::Broadcast,
        SenderMessage::Ping => SenderAction::Answer,
        SenderMessage::Pong | SenderMessage::Other => SenderAction::Wait,
        SenderMessage::Close | SenderMessage::Failed | SenderMessage::Ended => SenderAction::Stop,
    }
}

/// The frames that are passed on of the messages of a connection, each with the frame
/// that it brings: what each message asks is done, until one asks to stop.
pub open spec fn broadcast_frames<F>(messages: Seq<(SenderMessage, F)>) -> Seq<F>
    decreases messages.len(),
{
    if messages.len() == 0 {
        Seq::empty()
    } else {
        match sender_action(messages.first().0) {
            SenderAction::Stop => Seq::empty(),
            SenderAction::Broadcast => seq![messages.first().1] + broadcast_frames(
                messages.drop_first(),
            ),
            SenderAction::Answer | SenderAction::Wait => broadcast_frames(messages.drop_first()),
        }
    }
}

/// How many messages come before the first that ends the connection.
pub open spec fn messages_served<F>(messages: Seq<(SenderMessage, F)>) -> nat
    decreases messages.len(),
{
    if messages.len() == 0 || sender_action(messages.first().0) == SenderAction::Stop {
        0
    } else {
        1 + messages_served(messages.drop_first())
    }
}

/// What is to be done about a message of a connection that sends sound.
pub fn sender_step(message: SenderMessage) -> (r: SenderAction)
    ensures
        r == sender_action(message),
{
    match message {
        SenderMessage::Binary => SenderAction::Broadcast,
        SenderMessage::Ping => SenderAction::Answer,
        SenderMessage::Pong => SenderAction::Wait,
        SenderMessage::Other => SenderAction::Wait,
        SenderMessage::Close => SenderAction::Stop,
        SenderMessage::Failed => SenderAction::Stop,
        SenderMessage::Ended => SenderAction::Stop,
    }
}

/// What can happen to a connection that receives sound.
#[derive(Clone, Copy, Debug, PartialEq, Eq, Structural)]
pub enum ReceiverEvent {
    /// Sound of the stream came in.
    Sound,
    /// Sound was lost before it could be read.
    Lagged,
    /// The stream has ended.
    StreamEnded,
    /// Sound was sent to the other end, or could not be.
    Forwarded { ok: bool },
    /// The other end closed the connection, or it is gone.
    Closed,
    /// Anything else came from the other end.
    Other,
}

/// What is to be done about a connection that receives sound.
#[derive(Clone, Copy, Debug, PartialEq, Eq, Structural)]
pub enum ReceiverAction {
    /// Send the sound to the other end.
    Forward,
    /// Wait for what happens next.
    Wait,
    /// End the connection.
    Stop,
}

/// What an event asks to be done about a connection that receives sound.
pub open spec fn receiver_action(event: ReceiverEvent) -> ReceiverAction {
    match event {
        ReceiverEvent::Sound => ReceiverAction::Forward,
        ReceiverEvent::StreamEnded
        | ReceiverEvent::Closed
        | ReceiverEvent::Forwarded { ok: false } => ReceiverAction::Stop,
        ReceiverEvent::Lagged
        | ReceiverEvent::Other
        | ReceiverEvent::Forwarded { ok: true } => ReceiverAction::Wait,
    }
}

/// The frames that a connection sends on, of the events that happen to it, each with
/// the frame that it brings: it does what each event asks, until one asks to stop.
pub open spec fn forwarded<F>(events: Seq<(ReceiverEvent, F)>) -> Seq<F>
    decreases events.len(),
{
    if events.len() == 0 {
        Seq::empty()
    } else {
        match receiver_action(events.first().0) {
            ReceiverAction::Stop => Seq::empty(),
            ReceiverAction::Wait => forwarded(events.drop_first()),
            ReceiverAction::Forward => seq![events.first().1] + forwarded(events.drop_first()),
        }
    }
}

/// How many events come before the first that ends the connection.
pub open spec fn served<F>(events: Seq<(ReceiverEvent, F)>) -> nat
    decreases events.len(),
{
    if events.len() == 0 || receiver_action(events.first().0) == ReceiverAction::Stop {
        0
    } else {
        1 + served(events.drop_first())
    }
}

/// What is to be done about a connection that receives sound.
pub fn receiver_step(event: ReceiverEvent) -> (r: ReceiverAction)
    ensures
        r == receiver_action(event),
{
    match event {
        ReceiverEvent::Sound => ReceiverAction::Forward,
        ReceiverEvent::Lagged => ReceiverAction::Wait,
        ReceiverEvent::StreamEnded => ReceiverAction::Stop,
        ReceiverEvent::Forwarded { ok } => {
            if ok {
                ReceiverAction::Wait
            } else {
                ReceiverAction::Stop
            }
        },
        ReceiverEvent::Closed => ReceiverAction::Stop,
        ReceiverEvent::Other => ReceiverAction::Wait,
    }
}

/// A session belongs to the device that it heard of first: once it has one, no event
/// changes it.
pub proof fn law_session_keeps_its_device(session: SessionView, event: SocketEvent)
    requires
        session.device_id is Some,
    ensures
        session.after(event).device_id == session.device_id,
{
}

/// A ping that is sent while none is to be answered ends the connection at the first
/// tick after its deadline; at a tick up to the deadline, or after an answer, another
/// ping is sent.
pub proof fn law_unanswered_ping_ends_the_session(
    session: SessionView,
    hub: HubView,
    sent: u64,
    now: u64,
)
    requires
        session.pong_deadline is None,
        sent + PONG_WITHIN <= u64::MAX,
    ensures
        ({
            let waiting = session.after(SocketEvent::PingSent { ok: true, now: sent });
            let answered = waiting.after(SocketEvent::Pong);
            let tick = SocketEvent::Tick { now };
            &&& now > sent + PONG_WITHIN ==> waiting.action(hub, tick) == ActionView::Stop
            &&& now <= sent + PONG_WITHIN ==> waiting.action(hub, tick) == ActionView::Ping
            &&& answered.action(hub, tick) == ActionView::Ping
        }),
{
}

/// A deadline that is set stays as it is until an answer comes: no other event changes
/// it, a further ping included.
pub proof fn law_deadline_stays_until_the_answer(session: SessionView, event: SocketEvent)
    requires
        session.pong_deadline is Some,
        event != SocketEvent::Pong,
    ensures
        session.after(event).pong_deadline == session.pong_deadline,
{
}

/// A peer that answers no ping is dropped: whatever happens after a ping, further pings
/// included, the first tick later than eight seconds after it ends the connection, and
/// the device that it belongs to is then offline.
pub proof fn law_silent_peer_is_dropped(
    session: SessionView,
    hub: HubView,
    sent: u64,
    events: Seq<SocketEvent>,
    now: u64,
)
    requires
        session.pong_deadline is None,
        sent + PONG_WITHIN < now,
        forall|i: int| 0 <= i < events.len() ==> #[trigger] events[i] != SocketEvent::Pong,
    ensures
        ({
            let waiting = session.after(SocketEvent::PingSent { ok: true, now: sent });
            let silent = waiting.after_all(events);
            &&& silent.action(hub, SocketEvent::Tick { now }) == ActionView::Stop
            &&& match silent.device_id {
                Some(id) => hub.devices.contains_key(id) ==> silent.hub_closed(
                    hub,
                ).devices[id].status == DeviceStatus::Offline,
                None => true,
            }
        }),
{
    let waiting = session.after(SocketEvent::PingSent { ok: true, now: sent });
    lemma_deadline_stays(waiting, events);
}

/// A deadline that is set stays through any events without an answer.
proof fn lemma_deadline_stays(session: SessionView, events: Seq<SocketEvent>)
    requires
        session.pong_deadline is Some,
        forall|i: int| 0 <= i < events.len() ==> #[trigger] events[i] != SocketEvent::Pong,
    ensures
        session.after_all(events).pong_deadline == session.pong_deadline,
    decreases events.len(),
{
    if events.len() > 0 {
        let before = events.drop_last();
        assert forall|i: int| 0 <= i < before.len() implies #[trigger] before[i]
            != SocketEvent::Pong by {
            assert(before[i] == events[i]);
        }
        lemma_deadline_stays(session, before);
        assert(events[events.len() - 1] != SocketEvent::Pong);
        law_deadline_stays_until_the_answer(session.after_all(before), events.last());
    }
}

/// Nothing but a text changes the hub, and only a heartbeat does: anything else
/// leaves it as it is.
pub proof fn law_only_heartbeats_change_the_hub(
    session: SessionView,
    hub: HubView,
    event: SocketEvent,
)
    requires
        event matches SocketEvent::Text { text, .. } ==> Message::read(text@).heartbeat() is None,
    ensures
        session.hub_after(hub, event) == hub,
{
}

/// A receiver gets every frame of sound that comes before its connection ends, each
/// once, unchanged and in order, and nothing else; the connection ends at the first
/// event that asks for it, and at no other.
pub proof fn law_receiver_gets_every_frame<F>(events: Seq<(ReceiverEvent, F)>)
    ensures
        served(events) <= events.len(),
        forwarded(events) == brought(
            events.take(served(events) as int),
            |e: (ReceiverEvent, F)| e.0 == ReceiverEvent::Sound,
        ),
        served(events) < events.len() ==> receiver_action(events[served(events) as int].0)
            == ReceiverAction::Stop,
        forall|i: int|
            0 <= i < served(events) ==> receiver_action((#[trigger] events[i]).0)
                != ReceiverAction::Stop,
    decreases events.len(),
{
    reveal(Seq::filter);
    let is_sound = |e: (ReceiverEvent, F)| e.0 == ReceiverEvent::Sound;
    if events.len() == 0 || receiver_action(events.first().0) == ReceiverAction::Stop {
        assert(events.take(0) =~= Seq::empty());
        assert(brought(events.take(0), is_sound) =~= Seq::empty());
    } else {
        let rest = events.drop_first();
        law_receiver_gets_every_frame(rest);
        let n = served(rest) as int;
        assert(events.take(n + 1) =~= seq![events.first()] + rest.take(n));
        lemma_brought_by_one_more(events.first(), rest.take(n), is_sound);
        assert(rest.len() == events.len() - 1);
        assert forall|i: int| 0 <= i < served(events) implies receiver_action(
            (#[trigger] events[i]).0,
        ) != ReceiverAction::Stop by {
            if i > 0 {
                assert(rest[i - 1] == events[i]);
            }
        }
        if n < rest.len() {
            assert(rest[n] == events[n + 1]);
        }
    }
}

/// Losing sound never ends a connection that receives: with a loss anywhere among the
/// events, the same frames are sent on.
pub proof fn law_lag_never_ends_a_receiver<F>(
    before: Seq<(ReceiverEvent, F)>,
    frame: F,
    after: Seq<(ReceiverEvent, F)>,
)
    ensures
        forwarded(before + seq![(ReceiverEvent::Lagged, frame)] + after) == forwarded(
            before + after,
        ),
    decreases before.len(),
{
    let lagged = seq![(ReceiverEvent::Lagged, frame)];
    let with = before + lagged + after;
    if before.len() == 0 {
        assert(with.drop_first() =~= after);
        assert(before + after =~= after);
    } else {
        let rest = before.drop_first();
        law_lag_never_ends_a_receiver(rest, frame, after);
        assert(with.drop_first() =~= rest + lagged + after);
        assert((before + after).drop_first() =~= rest + after);
        assert(with.first() == before.first() && (before + after).first() == before.first());
    }
}

/// One more item in front: what it brings comes first, where it is wanted.
proof fn lemma_brought_by_one_more<K, F>(
    first: (K, F),
    rest: Seq<(K, F)>,
    wanted: spec_fn((K, F)) -> bool,
)
    ensures
        brought(seq![first] + rest, wanted) == (if wanted(first) {
            seq![first.1] + brought(rest, wanted)
        } else {
            brought(rest, wanted)
        }),
    decreases rest.len(),
{
    reveal(Seq::filter);
    let all = seq![first] + rest;
    if rest.len() == 0 {
        assert(all =~= seq![first]);
        assert(all.drop_last() =~= Seq::empty());
        assert(all.drop_last().filter(wanted) =~= Seq::empty());
        assert(rest.filter(wanted) =~= Seq::empty());
    } else {
        let shorter = rest.drop_last();
        lemma_brought_by_one_more(first, shorter, wanted);
        assert(all.drop_last() =~= seq![first] + shorter);
        assert(all.last() == rest.last());
        if wanted(rest.last()) {
            assert(brought(all, wanted) =~= brought(all.drop_last(), wanted).push(rest.last().1));
            assert(brought(rest, wanted) =~= brought(shorter, wanted).push(rest.last().1));
        } else {
            assert(brought(all, wanted) =~= brought(all.drop_last(), wanted));
            assert(brought(rest, wanted) =~= brought(shorter, wanted));
        }
    }
    assert(brought(all, wanted) =~= (if wanted(first) {
        seq![first.1] + brought(rest, wanted)
    } else {
        brought(rest, wanted)
    }));
}

/// A sender's frames are all passed on: exactly those of its binary messages before the
/// message that ends the connection, each once, unchanged and in order. The connection
/// ends at the first message that closes it, fails or says that it is gone, and at no
/// other.
pub proof fn law_sender_passes_on_every_frame<F>(messages: Seq<(SenderMessage, F)>)
    ensures
        messages_served(messages) <= messages.len(),
        broadcast_frames(messages) == brought(
            messages.take(messages_served(messages) as int),
            |m: (SenderMessage, F)| m.0 == SenderMessage::Binary,
        ),
        messages_served(messages) < messages.len() ==> sender_action(
            messages[messages_served(messages) as int].0,
        ) == SenderAction::Stop,
        forall|i: int|
            0 <= i < messages_served(messages) ==> sender_action((#[trigger] messages[i]).0)
                != SenderAction::Stop,
    decreases messages.len(),
{
    reveal(Seq::filter);
    let is_frame = |m: (SenderMessage, F)| m.0 == SenderMessage::Binary;
    if messages.len() == 0 || sender_action(messages.first().0) == SenderAction::Stop {
        assert(messages.take(0) =~= Seq::empty());
        assert(brought(messages.take(0), is_frame) =~= Seq::empty());
    } else {
        let rest = messages.drop_first();
        law_sender_passes_on_every_frame(rest);
        let n = messages_served(rest) as int;
        assert(messages.take(n + 1) =~= seq![messages.first()] + rest.take(n));
        lemma_brought_by_one_more(messages.first(), rest.take(n), is_frame);
        assert forall|i: int| 0 <= i < messages_served(messages) implies sender_action(
            (#[trigger] messages[i]).0,
        ) != SenderAction::Stop by {
            if i > 0 {
                assert(rest[i - 1] == messages[i]);
            }
        }
        if n < rest.len() {
            assert(rest[n] == messages[n + 1]);
        }
    }
}

/// The control bus passes on everything that the hub tells: of all that happens to a
/// connection, exactly the published events before the end of the connection are
/// forwarded, each once and in order. The connection ends at the first event whose
/// action is to stop, and at no other.
pub proof fn law_bus_forwards_every_event<E>(
    session: SessionView,
    hub: HubView,
    events: Seq<(SocketEvent, E)>,
)
    ensures
        ({
            let n = session.events_served(hub, events);
            &&& n <= events.len()
            &&& session.forwarded_events(hub, events) == brought(
                events.take(n as int),
                |e: (SocketEvent, E)| e.0 is Published,
            )
            &&& n < events.len() ==> session.after_all(kinds(events.take(n as int))).action(
                hub,
                events[n as int].0,
            ) == ActionView::Stop
            &&& forall|i: int|
                0 <= i < n ==> session.after_all(#[trigger] kinds(events.take(i))).action(
                    hub,
                    events[i].0,
                ) != ActionView::Stop
        }),
    decreases events.len(),
{
    reveal(Seq::filter);
    let is_told = |e: (SocketEvent, E)| e.0 is Published;
    let n = session.events_served(hub, events) as int;
    assert(kinds(events.take(0)) =~= Seq::empty());
    if events.len() == 0 || session.action(hub, events.first().0) == ActionView::Stop {
        assert(events.take(0) =~= Seq::empty());
        assert(brought(events.take(0), is_told) =~= Seq::empty());
    } else {
        let first = events.first().0;
        let rest = events.drop_first();
        let next = session.after(first);
        let hub_next = session.hub_after(hub, first);
        law_bus_forwards_every_event(next, hub_next, rest);
        assert(n == next.events_served(hub_next, rest) + 1);
        assert(events.take(n) =~= seq![events.first()] + rest.take(n - 1));
        lemma_brought_by_one_more(events.first(), rest.take(n - 1), is_told);
        assert forall|i: int| 0 < i <= events.len() implies session.after_all(
            #[trigger] kinds(events.take(i)),
        ) == next.after_all(kinds(rest.take(i - 1))) by {
            assert(kinds(events.take(i)) =~= seq![first] + kinds(rest.take(i - 1)));
            lemma_after_all_from_the_front(session, first, kinds(rest.take(i - 1)));
        }
        assert forall|i: int| 0 <= i < n implies session.after_all(
            #[trigger] kinds(events.take(i)),
        ).action(hub, events[i].0) != ActionView::Stop by {
            if i > 0 {
                let then = next.after_all(kinds(rest.take(i - 1)));
                assert(rest[i - 1] == events[i]);
                lemma_stop_rests_on_the_session(then, hub, hub_next, events[i].0);
            }
        }
        if n < events.len() {
            let then = next.after_all(kinds(rest.take(n - 1)));
            assert(rest[n - 1] == events[n]);
            assert(session.after_all(kinds(events.take(n))) == then);
            lemma_stop_rests_on_the_session(then, hub, hub_next, events[n].0);
        }
    }
}

/// Events that are lost before they could be read change nothing of what is forwarded:
/// with a loss anywhere among the events, the same ones are.
pub proof fn law_lag_never_ends_the_bus<E>(
    session: SessionView,
    hub: HubView,
    before: Seq<(SocketEvent, E)>,
    event: E,
    after: Seq<(SocketEvent, E)>,
)
    ensures
        session.forwarded_events(hub, before + seq![(SocketEvent::Lagged, event)] + after)
            == session.forwarded_events(hub, before + after),
    decreases before.len(),
{
    let lagged = seq![(SocketEvent::Lagged, event)];
    let with = before + lagged + after;
    if before.len() == 0 {
        assert(with.drop_first() =~= after);
        assert(before + after =~= after);
    } else {
        let first = before.first().0;
        let rest = before.drop_first();
        law_lag_never_ends_the_bus(
            session.after(first),
            session.hub_after(hub, first),
            rest,
            event,
            after,
        );
        assert(with.drop_first() =~= rest + lagged + after);
        assert((before + after).drop_first() =~= rest + after);
        assert(with.first() == before.first() && (before + after).first() == before.first());
    }
}

/// What is forwarded does not rest on what the hub holds, so that nothing that others
/// change of it meanwhile takes an event away.
pub proof fn law_forwarding_needs_no_hub<E>(
    session: SessionView,
    hub: HubView,
    other: HubView,
    events: Seq<(SocketEvent, E)>,
)
    ensures
        session.forwarded_events(hub, events) == session.forwarded_events(other, events),
    decreases events.len(),
{
    if events.len() > 0 {
        let first = events.first().0;
        lemma_stop_rests_on_the_session(session, hub, other, first);
        law_forwarding_needs_no_hub(
            session.after(first),
            session.hub_after(hub, first),
            session.hub_after(other, first),
            events.drop_first(),
        );
    }
}

/// A connection to which the first message could not be sent ends at once, and leaves
/// the hub as it is.
pub proof fn law_unreached_peer_changes_nothing(hub: HubView)
    ensures
        ({
            let opened = SessionView { device_id: None, pong_deadline: None };
            let unsent = SocketEvent::Forwarded { ok: false };
            &&& opened.action(hub, unsent) == ActionView::Stop
            &&& opened.hub_after(hub, unsent) == hub
            &&& opened.after(unsent).hub_closed(hub) == hub
        }),
{
}

/// Whether an event stops a connection, or is forwarded, is told by the session alone.
proof fn lemma_stop_rests_on_the_session(
    session: SessionView,
    hub: HubView,
    other: HubView,
    event: SocketEvent,
)
    ensures
        session.action(hub, event) == ActionView::Stop <==> session.action(other, event)
            == ActionView::Stop,
        session.action(hub, event) == ActionView::Forward <==> event is Published,
{
}

/// Several events after a first one are the first and then the others.
proof fn lemma_after_all_from_the_front(
    session: SessionView,
    first: SocketEvent,
    rest: Seq<SocketEvent>,
)
    ensures
        session.after_all(seq![first] + rest) == session.after(first).after_all(rest),
    decreases rest.len(),
{
    let all = seq![first] + rest;
    if rest.len() == 0 {
        assert(all.drop_last() =~= Seq::empty());
        assert(session.after_all(all.drop_last()) == session);
        assert(all.last() == first);
    } else {
        lemma_after_all_from_the_front(session, first, rest.drop_last());
        assert(all.drop_last() =~= seq![first] + rest.drop_last());
        assert(all.last() == rest.last());
    }
}

/// Whatever the other end sends as a text, the connection goes on.
pub proof fn law_texts_never_end_the_session(
    session: SessionView,
    hub: HubView,
    text: String,
    now_ms: u64,
)
    ensures
        session.action(hub, SocketEvent::Text { text, now_ms }) != ActionView::Stop,
{
}

} // verus!

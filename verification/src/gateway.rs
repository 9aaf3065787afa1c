//! The session driver's decisions: what an inbound frame asks for, which
//! frames the driver sends, and how a session moves between its phases.

use vstd::prelude::*;
use crate::json::{doc, parsed, rendered, Document, NumberModel};
use crate::json::{
    as_unsigned, empty_object, is_object, member, null_value, parse, put, render, text_value, unsigned_value,
};

verus! {

pub const OP_DISPATCH: u64 = 0;

pub const OP_HEARTBEAT: u64 = 1;

pub const OP_IDENTIFY: u64 = 2;

pub const OP_HELLO: u64 = 10;

pub const OP_HEARTBEAT_ACK: u64 = 11;

/// What an inbound frame asks of the driver.
#[derive(Debug, Clone, Copy, PartialEq, Eq)]
pub enum Reaction {
    /// A dispatch: handed downstream, not interpreted here.
    Forward,
    /// The server announced the heartbeat interval, in milliseconds.
    StartHeartbeat(u64),
    /// The server confirmed a heartbeat.
    Acknowledged,
    /// An opcode that the driver does not act on.
    Unhandled(u64),
    /// The frame has no `op` member.
    MissingOpcode,
}

/// Why an inbound frame cannot be acted on.
#[derive(Debug, Clone, Copy, PartialEq, Eq)]
pub enum GatewayError {
    /// The text is no JSON object.
    Syntax,
    /// `op` is no non-negative integer.
    Opcode,
    /// A hello frame without a non-negative integer `d.heartbeat_interval`.
    Interval,
}

/// The reaction that a frame's document asks for.
pub open spec fn reaction_of(d: Document) -> Result<Reaction, GatewayError> {
    if !(d is Object) {
        Err(GatewayError::Syntax)
    } else {
        match d.field("op"@) {
            None => Ok(Reaction::MissingOpcode),
            Some(x) => match x.unsigned() {
                None => Err(GatewayError::Opcode),
                Some(op) => if op == OP_DISPATCH {
                    Ok(Reaction::Forward)
                } else if op == OP_HELLO {
                    match d.field("d"@) {
                        None => Err(GatewayError::Interval),
                        Some(data) => match data.unsigned_field("heartbeat_interval"@) {
                            None => Err(GatewayError::Interval),
                            Some(h) => Ok(Reaction::StartHeartbeat(h)),
                        },
                    }
                } else if op == OP_HEARTBEAT_ACK {
                    Ok(Reaction::Acknowledged)
                } else {
                    Ok(Reaction::Unhandled(op))
                },
            },
        }
    }
}

/// The reaction that a parsed frame asks for.
pub open spec fn reaction(p: Option<Document>) -> Result<Reaction, GatewayError> {
    match p {
        None => Err(GatewayError::Syntax),
        Some(d) => reaction_of(d),
    }
}

/// Classifies an inbound frame by its opcode.
pub fn react(v: &serde_json::Value) -> (r: Result<Reaction, GatewayError>)
    ensures
        r == reaction_of(doc(*v)),
{
    if !is_object(v) {
        return Err(GatewayError::Syntax);
    }
    match member(v, "op") {
        None => Ok(Reaction::MissingOpcode),
        Some(x) => match as_unsigned(x) {
            None => Err(GatewayError::Opcode),
            Some(op) => if op == OP_DISPATCH {
                Ok(Reaction::Forward)
            } else if op == OP_HELLO {
                match member(v, "d") {
                    None => Err(GatewayError::Interval),
                    Some(data) => match member(data, "heartbeat_interval") {
                        None => Err(GatewayError::Interval),
                        Some(h) => match as_unsigned(h) {
                            None => Err(GatewayError::Interval),
                            Some(interval) => Ok(Reaction::StartHeartbeat(interval)),
                        },
                    },
                }
            } else if op == OP_HEARTBEAT_ACK {
                Ok(Reaction::Acknowledged)
            } else {
                Ok(Reaction::Unhandled(op))
            },
        },
    }
}

/// Classifies the text of an inbound frame.
pub fn handle_payload(payload: &str) -> (r: Result<Reaction, GatewayError>)
    ensures
        r == reaction(parsed(payload@)),
{
    match parse(payload) {
        Ok(v) => react(&v),
        Err(_) => Err(GatewayError::Syntax),
    }
}

pub open spec fn unsigned_doc(n: u64) -> Document {
    Document::Number(NumberModel::PosInt(n))
}

pub open spec fn empty_doc() -> Document {
    Document::Object(Map::empty())
}

/// The heartbeat frame: opcode 1 with a null sequence.
pub open spec fn heartbeat_document() -> Document {
    empty_doc().with_field("op"@, unsigned_doc(OP_HEARTBEAT)).with_field("d"@, Document::Null)
}

/// The client-identification properties of the identify frame.
pub open spec fn properties_document() -> Document {
    empty_doc().with_field("os"@, Document::Text("linux"@)).with_field(
        "device"@,
        Document::Text("cognite-gateway"@),
    ).with_field("platform"@, Document::Text("cognite-gateway"@))
}

/// The identify frame: opcode 2 with the token, the intent bitmask and the
/// client-identification properties.
pub open spec fn identify_document(token: Seq<char>, intents: u64) -> Document {
    empty_doc().with_field("op"@, unsigned_doc(OP_IDENTIFY)).with_field(
        "d"@,
        empty_doc().with_field("token"@, Document::Text(token)).with_field(
            "intents"@,
            unsigned_doc(intents),
        ).with_field("properties"@, properties_document()),
    )
}

/// The text of the heartbeat frame.
pub fn heartbeat_frame() -> (r: String)
    ensures
        r@ == rendered(heartbeat_document()),
{
    let mut frame = empty_object();
    put(&mut frame, "op", unsigned_value(OP_HEARTBEAT));
    put(&mut frame, "d", null_value());
    render(&frame)
}

/// The text of the identify frame for a token and an intent bitmask.
pub fn identify_frame(token: &str, intents: u64) -> (r: String)
    ensures
        r@ == rendered(identify_document(token@, intents)),
{
    let mut properties = empty_object();
    put(&mut properties, "os", text_value("linux"));
    put(&mut properties, "device", text_value("cognite-gateway"));
    put(&mut properties, "platform", text_value("cognite-gateway"));
    let mut data = empty_object();
    put(&mut data, "token", text_value(token));
    put(&mut data, "intents", unsigned_value(intents));
    put(&mut data, "properties", properties);
    let mut frame = empty_object();
    put(&mut frame, "op", unsigned_value(OP_IDENTIFY));
    put(&mut frame, "d", data);
    render(&frame)
}

/// The phase of a gateway session.
#[derive(Debug, Clone, Copy, PartialEq, Eq)]
pub enum Phase {
    Connecting,
    Identifying,
    Established,
    Closed,
}

/// The state of one gateway connection.
#[derive(Debug, Clone, Copy, PartialEq, Eq)]
pub struct Session {
    pub phase: Phase,
    /// Milliseconds between heartbeats, as the server announced them.
    pub heartbeat_interval: u64,
    /// When the last heartbeat was sent, in milliseconds of the caller's clock.
    pub last_heartbeat: u64,
}

/// What happened on the connection.
#[derive(Debug, Clone, Copy, PartialEq, Eq)]
pub enum Event {
    /// A frame arrived and was classified.
    Received(Reaction),
    /// The identify frame was written.
    IdentifySent,
    /// The heartbeat timer ran out.
    TimerFired,
    /// The transport closed, or a send failed.
    Disconnected,
}

/// What the driver does next.
#[derive(Debug, Clone, Copy, PartialEq, Eq)]
pub enum Action {
    /// Nothing.
    Idle,
    /// Send the identify frame, then report `IdentifySent`.
    SendIdentify,
    /// Send one heartbeat frame and set the timer to `wait` milliseconds.
    SendHeartbeat { wait: u64 },
    /// Hand the frame downstream.
    Forward,
    /// Cancel the timer and all pending work; the session is over.
    Stop,
}

/// The session after an event at time `now`, and the action that the event
/// calls for.
pub open spec fn step_of(s: Session, event: Event, now: u64) -> (Session, Action) {
    match s.phase {
        Phase::Closed => (s, Action::Idle),
        _ => match event {
            Event::Disconnected => (Session { phase: Phase::Closed, ..s }, Action::Stop),
            Event::Received(Reaction::Forward) => (s, Action::Forward),
            Event::Received(Reaction::StartHeartbeat(h)) => match s.phase {
                Phase::Connecting => (
                    Session { phase: Phase::Identifying, heartbeat_interval: h, ..s },
                    Action::SendIdentify,
                ),
                Phase::Established => (
                    Session { heartbeat_interval: h, last_heartbeat: now, ..s },
                    Action::SendHeartbeat { wait: h },
                ),
                _ => (s, Action::Idle),
            },
            Event::Received(_) => (s, Action::Idle),
            Event::IdentifySent => match s.phase {
                Phase::Identifying => (
                    Session { phase: Phase::Established, last_heartbeat: now, ..s },
                    Action::SendHeartbeat { wait: s.heartbeat_interval },
                ),
                _ => (s, Action::Idle),
            },
            Event::TimerFired => match s.phase {
                Phase::Established => (
                    Session { last_heartbeat: now, ..s },
                    Action::SendHeartbeat { wait: s.heartbeat_interval },
                ),
                _ => (s, Action::Idle),
            },
        },
    }
}

impl Session {
    /// A session whose transport was just opened.
    pub fn new() -> (r: Session)
        ensures
            r == (Session { phase: Phase::Connecting, heartbeat_interval: 0, last_heartbeat: 0 }),
    {
        Session { phase: Phase::Connecting, heartbeat_interval: 0, last_heartbeat: 0 }
    }

    /// Moves the session by one event and says what to do.
    pub fn step(&mut self, event: Event, now: u64) -> (action: Action)
        ensures
            (*final(self), action) == step_of(*old(self), event, now),
    {
        match self.phase {
            Phase::Closed => Action::Idle,
            _ => match event {
                Event::Disconnected => {
                    self.phase = Phase::Closed;
                    Action::Stop
                },
                Event::Received(Reaction::Forward) => Action::Forward,
                Event::Received(Reaction::StartHeartbeat(h)) => match self.phase {
                    Phase::Connecting => {
                        self.phase = Phase::Identifying;
                        self.heartbeat_interval = h;
                        Action::SendIdentify
                    },
                    Phase::Established => {
                        self.heartbeat_interval = h;
                        self.last_heartbeat = now;
                        Action::SendHeartbeat { wait: h }
                    },
                    _ => Action::Idle,
                },
                Event::Received(_) => Action::Idle,
                Event::IdentifySent => match self.phase {
                    Phase::Identifying => {
                        self.phase = Phase::Established;
                        self.last_heartbeat = now;
                        Action::SendHeartbeat { wait: self.heartbeat_interval }
                    },
                    _ => Action::Idle,
                },
                Event::TimerFired => match self.phase {
                    Phase::Established => {
                        self.last_heartbeat = now;
                        Action::SendHeartbeat { wait: self.heartbeat_interval }
                    },
                    _ => Action::Idle,
                },
            },
        }
    }
}

/// The session after `n` runs of the heartbeat timer, the first at `start`
/// and each one `heartbeat_interval` milliseconds after the one before.
pub open spec fn after_timers(s: Session, start: nat, n: nat) -> Session
    decreases n,
{
    if n == 0 {
        s
    } else {
        let before = after_timers(s, start, (n - 1) as nat);
        step_of(before, Event::TimerFired, timer_time(s, start, n - 1)).0
    }
}

/// The clock at the `k`-th run of the timer, held at the clock's maximum.
pub open spec fn timer_time(s: Session, start: nat, k: int) -> u64 {
    let t = start + k * s.heartbeat_interval;
    if t <= u64::MAX {
        t as u64
    } else {
        u64::MAX
    }
}

/// In an established session with interval H, every run of the timer sends
/// exactly one heartbeat and sets the timer to H again; the session stays
/// established with the same interval, and remembers when it last sent.
pub proof fn one_heartbeat_per_interval(s: Session, start: nat, n: nat)
    requires
        s.phase == Phase::Established,
    ensures
        after_timers(s, start, n).phase == Phase::Established,
        after_timers(s, start, n).heartbeat_interval == s.heartbeat_interval,
        n > 0 ==> after_timers(s, start, n).last_heartbeat == timer_time(s, start, n - 1),
        step_of(after_timers(s, start, n), Event::TimerFired, timer_time(s, start, n as int)).1
            == (Action::SendHeartbeat { wait: s.heartbeat_interval }),
    decreases n,
{
    if n > 0 {
        one_heartbeat_per_interval(s, start, (n - 1) as nat);
    }
}

/// A heartbeat is sent only by a session that is established once the
/// event is handled, and the timer is then set to the session's interval.
pub proof fn heartbeat_only_when_established(s: Session, event: Event, now: u64)
    ensures
        step_of(s, event, now).1 is SendHeartbeat ==> {
            &&& step_of(s, event, now).0.phase == Phase::Established
            &&& step_of(s, event, now).0.last_heartbeat == now
            &&& step_of(s, event, now).1 == (Action::SendHeartbeat {
                wait: step_of(s, event, now).0.heartbeat_interval,
            })
        },
{
}

/// A closed session stays closed, and asks for nothing more.
pub proof fn closed_is_final(s: Session, event: Event, now: u64)
    requires
        s.phase == Phase::Closed,
    ensures
        step_of(s, event, now) == (s, Action::Idle),
{
}

} // verus!

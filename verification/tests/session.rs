use cognite::gateway::{handle_payload, heartbeat_frame, identify_frame, react};
use cognite::gateway::{Action, Event, GatewayError, Phase, Reaction, Session};
use serde_json::Value;

fn parse(text: &str) -> Value {
    serde_json::from_str(text).unwrap()
}

#[test]
fn reactions_by_opcode() {
    assert_eq!(handle_payload(r#"{"op":0,"t":"X","d":{}}"#), Ok(Reaction::Forward));
    assert_eq!(
        handle_payload(r#"{"op":10,"d":{"heartbeat_interval":41250}}"#),
        Ok(Reaction::StartHeartbeat(41250))
    );
    assert_eq!(handle_payload(r#"{"op":11}"#), Ok(Reaction::Acknowledged));
    assert_eq!(handle_payload(r#"{"op":7,"d":null}"#), Ok(Reaction::Unhandled(7)));
    assert_eq!(handle_payload(r#"{"op":1}"#), Ok(Reaction::Unhandled(1)));
    assert_eq!(handle_payload(r#"{"d":null}"#), Ok(Reaction::MissingOpcode));
    assert_eq!(react(&parse("{}")), Ok(Reaction::MissingOpcode));
}

#[test]
fn reaction_errors() {
    assert_eq!(handle_payload("{"), Err(GatewayError::Syntax));
    assert_eq!(handle_payload("[1]"), Err(GatewayError::Syntax));
    assert_eq!(handle_payload("null"), Err(GatewayError::Syntax));
    assert_eq!(handle_payload(r#"{"op":"0"}"#), Err(GatewayError::Opcode));
    assert_eq!(handle_payload(r#"{"op":-3}"#), Err(GatewayError::Opcode));
    assert_eq!(handle_payload(r#"{"op":1.5}"#), Err(GatewayError::Opcode));
    assert_eq!(handle_payload(r#"{"op":10}"#), Err(GatewayError::Interval));
    assert_eq!(handle_payload(r#"{"op":10,"d":null}"#), Err(GatewayError::Interval));
    assert_eq!(handle_payload(r#"{"op":10,"d":{}}"#), Err(GatewayError::Interval));
    assert_eq!(
        handle_payload(r#"{"op":10,"d":{"heartbeat_interval":"1"}}"#),
        Err(GatewayError::Interval)
    );
}

#[test]
fn heartbeat_frame_has_opcode_one_and_null_payload() {
    let text = heartbeat_frame();
    assert_eq!(text, r#"{"d":null,"op":1}"#);
    assert_eq!(parse(&text), parse(r#"{"op":1,"d":null}"#));
}

#[test]
fn identify_frame_carries_token_intents_and_properties() {
    let text = identify_frame("t0k\"en", 513);
    let expected = parse(
        r#"{"op":2,"d":{"token":"t0k\"en","intents":513,
            "properties":{"os":"linux","device":"cognite-gateway","platform":"cognite-gateway"}}}"#,
    );
    assert_eq!(parse(&text), expected);
    assert_eq!(handle_payload(&text), Ok(Reaction::Unhandled(2)));
}

#[test]
fn session_handshake() {
    let mut s = Session::new();
    assert_eq!(s.phase, Phase::Connecting);
    assert_eq!(s.step(Event::TimerFired, 1), Action::Idle);
    assert_eq!(s.step(Event::Received(Reaction::Acknowledged), 2), Action::Idle);
    assert_eq!(s.step(Event::Received(Reaction::StartHeartbeat(250)), 3), Action::SendIdentify);
    assert_eq!(s.phase, Phase::Identifying);
    assert_eq!(s.heartbeat_interval, 250);
    assert_eq!(s.step(Event::TimerFired, 4), Action::Idle);
    assert_eq!(s.step(Event::IdentifySent, 5), Action::SendHeartbeat { wait: 250 });
    assert_eq!(s, Session { phase: Phase::Established, heartbeat_interval: 250, last_heartbeat: 5 });
    assert_eq!(s.step(Event::Received(Reaction::Forward), 6), Action::Forward);
    assert_eq!(s.step(Event::Received(Reaction::Unhandled(9)), 7), Action::Idle);
    assert_eq!(s.step(Event::Received(Reaction::MissingOpcode), 7), Action::Idle);
    assert_eq!(s.step(Event::IdentifySent, 8), Action::Idle);
    assert_eq!(s.last_heartbeat, 5);
    assert_eq!(
        s.step(Event::Received(Reaction::StartHeartbeat(100)), 9),
        Action::SendHeartbeat { wait: 100 }
    );
    assert_eq!(s, Session { phase: Phase::Established, heartbeat_interval: 100, last_heartbeat: 9 });
}

#[test]
fn one_heartbeat_per_interval_on_a_fake_clock() {
    let interval: u64 = 40;
    let mut s = Session::new();
    s.step(Event::Received(Reaction::StartHeartbeat(interval)), 0);
    let mut sent: Vec<u64> = Vec::new();
    let mut due = match s.step(Event::IdentifySent, 0) {
        Action::SendHeartbeat { wait } => {
            sent.push(0);
            wait
        }
        other => panic!("unexpected action: {:?}", other),
    };
    let mut now: u64 = 0;
    while now < 1000 {
        now += 1;
        if now == due {
            match s.step(Event::TimerFired, now) {
                Action::SendHeartbeat { wait } => {
                    assert_eq!(wait, interval);
                    sent.push(now);
                    due = now + wait;
                }
                other => panic!("unexpected action: {:?}", other),
            }
        } else {
            assert_eq!(s.step(Event::Received(Reaction::Acknowledged), now), Action::Idle);
        }
    }
    assert_eq!(sent.len(), 1 + 1000 / 40);
    for (k, at) in sent.iter().enumerate() {
        assert_eq!(*at, 40 * k as u64);
    }
    assert_eq!(s.last_heartbeat, 1000);
    assert_eq!(s.phase, Phase::Established);
}

#[test]
fn closing_ends_the_session() {
    let mut s = Session { phase: Phase::Established, heartbeat_interval: 10, last_heartbeat: 3 };
    assert_eq!(s.step(Event::Disconnected, 20), Action::Stop);
    assert_eq!(s.phase, Phase::Closed);
    assert_eq!(s.step(Event::TimerFired, 30), Action::Idle);
    assert_eq!(s.step(Event::Received(Reaction::Forward), 31), Action::Idle);
    assert_eq!(s.step(Event::Received(Reaction::StartHeartbeat(5)), 32), Action::Idle);
    assert_eq!(s.step(Event::Disconnected, 33), Action::Idle);
    assert_eq!(s, Session { phase: Phase::Closed, heartbeat_interval: 10, last_heartbeat: 3 });
    let mut early = Session::new();
    assert_eq!(early.step(Event::Disconnected, 1), Action::Stop);
    assert_eq!(early.phase, Phase::Closed);
}

use dash_core::claims::{AuthRequestClaims, JWTClaims, TokenConfig};
use dash_core::room::Room;
use dash_core::auth::{AuthError, AuthErrorType};
use dash_core::session::{authenticate, handshake_claims, step, Action, ConnState, Event, Frame};

fn joined(name: &str) -> ConnState {
    ConnState::Joined { name: String::from(name) }
}

fn text(t: &str) -> Event {
    Event::Inbound(Frame::Text(String::from(t)))
}

#[test]
fn upgrade_starts_authentication() {
    let (s, a) = step(ConnState::Connecting, Event::Upgraded);
    assert!(matches!(s, ConnState::Authenticating));
    assert!(matches!(a, Action::Wait));
    let (s, a) = step(ConnState::Connecting, text("early"));
    assert!(matches!(s, ConnState::Connecting));
    assert!(matches!(a, Action::Wait));
}

#[test]
fn first_text_frame_is_checked() {
    let (s, a) = step(ConnState::Authenticating, text("tok"));
    assert!(matches!(s, ConnState::Authenticating));
    match a {
        Action::Authenticate(t) => assert_eq!(t, "tok"),
        _ => panic!("authenticate expected"),
    }
}

#[test]
fn first_frame_not_text_closes() {
    let (s, a) = step(ConnState::Authenticating, Event::Inbound(Frame::Other));
    assert!(matches!(s, ConnState::Closed));
    assert!(matches!(a, Action::Close));
    let (s, a) = step(ConnState::Authenticating, Event::Inbound(Frame::End));
    assert!(matches!(s, ConnState::Closed));
    assert!(matches!(a, Action::Close));
}

#[test]
fn failed_authentication_closes_without_broadcast() {
    let (s, a) = step(ConnState::Authenticating, Event::Authenticated(None));
    assert!(matches!(s, ConnState::Closed));
    assert!(matches!(a, Action::Close));
}

#[test]
fn authentication_joins_and_announces() {
    let (s, a) = step(ConnState::Authenticating, Event::Authenticated(Some(String::from("alice"))));
    match s {
        ConnState::Joined { name } => assert_eq!(name, "alice"),
        _ => panic!("joined expected"),
    }
    match a {
        Action::Join { name, announcement } => {
            assert_eq!(name, "alice");
            assert_eq!(announcement, "alice joined");
        }
        _ => panic!("join expected"),
    }
}

#[test]
fn chat_line_carries_sender_name() {
    let (s, a) = step(joined("alice"), text("hi"));
    match s {
        ConnState::Joined { name } => assert_eq!(name, "alice"),
        _ => panic!("joined expected"),
    }
    match a {
        Action::Broadcast(line) => assert_eq!(line, "alice: hi"),
        _ => panic!("broadcast expected"),
    }
}

#[test]
fn chat_broadcast_reaches_both() {
    let (_, sent) = step(joined("alice"), text("hi"));
    let line = match sent {
        Action::Broadcast(line) => line,
        _ => panic!("broadcast expected"),
    };
    for receiver in ["alice", "bob"] {
        let (s, a) = step(joined(receiver), Event::Outbound(Some(line.clone())));
        match s {
            ConnState::Joined { name } => assert_eq!(name, receiver),
            _ => panic!("joined expected"),
        }
        match a {
            Action::Deliver(m) => assert_eq!(m, "alice: hi"),
            _ => panic!("deliver expected"),
        }
    }
}

#[test]
fn empty_frame_is_the_sentinel() {
    let (s, a) = step(joined("alice"), text(""));
    match s {
        ConnState::Leaving { name } => assert_eq!(name, "alice"),
        _ => panic!("leaving expected"),
    }
    assert!(matches!(a, Action::StopLoops));
    let (s, a) = step(joined("alice"), Event::Outbound(Some(String::new())));
    assert!(matches!(s, ConnState::Leaving { .. }));
    assert!(matches!(a, Action::StopLoops));
}

#[test]
fn loop_end_starts_leaving() {
    for event in [
        Event::Inbound(Frame::Other),
        Event::Inbound(Frame::End),
        Event::Outbound(None),
        Event::SendFailed,
    ] {
        let (s, a) = step(joined("bob"), event);
        match s {
            ConnState::Leaving { name } => assert_eq!(name, "bob"),
            _ => panic!("leaving expected"),
        }
        assert!(matches!(a, Action::StopLoops));
    }
    let (s, a) = step(joined("bob"), Event::Upgraded);
    assert!(matches!(s, ConnState::Joined { .. }));
    assert!(matches!(a, Action::Wait));
}

#[test]
fn leave_is_announced_after_stop() {
    let leaving = ConnState::Leaving { name: String::from("bob") };
    let (s, a) = step(leaving.clone(), text("late"));
    assert!(matches!(s, ConnState::Leaving { .. }));
    assert!(matches!(a, Action::Wait));
    let (s, a) = step(leaving.clone(), Event::Outbound(Some(String::from("x"))));
    assert!(matches!(s, ConnState::Leaving { .. }));
    assert!(matches!(a, Action::Wait));
    let (s, a) = step(leaving, Event::Stopped);
    assert!(matches!(s, ConnState::Closed));
    match a {
        Action::Leave { name, announcement } => {
            assert_eq!(name, "bob");
            assert_eq!(announcement, "bob left");
        }
        _ => panic!("leave expected"),
    }
}

#[test]
fn closed_stays_closed() {
    for event in [Event::Upgraded, text("x"), Event::Stopped, Event::Authenticated(Some(String::from("a")))] {
        let (s, a) = step(ConnState::Closed, event);
        assert!(matches!(s, ConnState::Closed));
        assert!(matches!(a, Action::Wait));
    }
}

#[test]
fn authenticate_checks_the_token() {
    let config = TokenConfig {
        secret: b"secret".to_vec(),
        issuer: String::from("i"),
        audience: String::from("a"),
        lifetime: 60,
    };
    let now = std::time::SystemTime::now().duration_since(std::time::UNIX_EPOCH).unwrap().as_secs();
    let claims = AuthRequestClaims::issue_at(&config, String::from("uuid-9"), now).unwrap();
    let token = claims.generate_token(&config).unwrap().token;
    assert_eq!(authenticate(&config, &token).unwrap().sub, "uuid-9");
    assert!(authenticate(&config, "garbage").is_none());
    assert!(authenticate(&config, "").is_none());
}

#[test]
fn room_join_and_leave() {
    let mut room = Room::new();
    assert!(room.is_empty());
    assert_eq!(room.join("alice"), "alice joined");
    assert!(room.contains("alice"));
    assert!(!room.contains("bob"));
    assert!(!room.is_empty());
    assert_eq!(room.join("bob"), "bob joined");
    assert_eq!(room.leave("alice"), "alice left");
    assert!(!room.contains("alice"));
    assert!(room.contains("bob"));
    assert_eq!(room.leave("bob"), "bob left");
    assert!(room.is_empty());
}

#[test]
fn room_join_twice_keeps_one_entry() {
    let mut room = Room::new();
    room.join("alice");
    room.join("alice");
    room.leave("alice");
    assert!(!room.contains("alice"));
    assert!(room.is_empty());
    assert_eq!(room.leave("nobody"), "nobody left");
    assert!(room.is_empty());
}

#[test]
fn room_all_join_all_leave() {
    let names = ["a", "b", "c", "d", "e", "f", "g"];
    let mut room = Room::new();
    let mut seen: Vec<String> = Vec::new();
    for n in names {
        seen.push(room.join(n));
    }
    for n in names.iter().rev() {
        assert!(room.contains(n));
        seen.push(room.leave(n));
    }
    assert!(room.is_empty());
    assert_eq!(seen.iter().filter(|m| m.ends_with(" joined")).count(), names.len());
    assert_eq!(seen.iter().filter(|m| m.ends_with(" left")).count(), names.len());
    assert_eq!(seen.len(), 2 * names.len());
}

#[test]
fn room_chat_line_format() {
    assert_eq!(Room::chat_line("alice", "hi"), "alice: hi");
    assert_eq!(Room::chat_line("", ""), ": ");
}

#[test]
fn handshake_claims_follow_the_check() {
    let claims = AuthRequestClaims {
        iss: String::from("i"),
        sub: String::from("uuid-3"),
        aud: String::from("a"),
        exp: 9,
        iat: 4,
    };
    let kept = handshake_claims(Ok(claims)).unwrap();
    assert_eq!((kept.iss.as_str(), kept.sub.as_str(), kept.aud.as_str(), kept.exp, kept.iat), ("i", "uuid-3", "a", 9, 4));
    assert!(handshake_claims(Err(AuthError::from_error_type(AuthErrorType::InvalidToken))).is_none());
    assert!(handshake_claims(Err(AuthError::default())).is_none());
}

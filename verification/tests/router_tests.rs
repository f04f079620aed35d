//! The router's guarantees on concrete runs: distinct identifiers, refusal
//! of unknown sessions, exact fan-out, and indifference to unhandled frames.

use session_relay::messages::{
    CreateSessionRequest, JoinSessionRequest, Params, ProtoMessage, WebSocketMessage,
    welcome_message,
};
use session_relay::router::MessageRouter;

fn create(router: &mut MessageRouter, conn: u32) -> String {
    let out = router.handle_message(
        conn,
        WebSocketMessage { message: Some(ProtoMessage::CreateSessionRequest(CreateSessionRequest {})) },
    );
    match &out[0].1.message {
        Some(ProtoMessage::CreateSessionResponse(resp)) => {
            assert!(resp.accepted);
            let (_, sid) = resp.session_url.split_once("?sid=").unwrap();
            sid.to_string()
        }
        other => panic!("expected CreateSessionResponse, got {:?}", other),
    }
}

fn join(router: &mut MessageRouter, conn: u32, sid: &str) -> bool {
    let out = router.handle_message(
        conn,
        WebSocketMessage {
            message: Some(ProtoMessage::JoinSessionRequest(JoinSessionRequest {
                sid: sid.to_string(),
            })),
        },
    );
    match &out[0].1.message {
        Some(ProtoMessage::JoinSessionResponse(resp)) => resp.accepted,
        other => panic!("expected JoinSessionResponse, got {:?}", other),
    }
}

fn params(sid: &str) -> Params {
    Params { size: 1, speed: 2, color: String::from("blue"), sid: sid.to_string() }
}

fn send(router: &mut MessageRouter, conn: u32, p: Params) -> Vec<(u32, WebSocketMessage)> {
    router.handle_message(conn, WebSocketMessage { message: Some(ProtoMessage::Params(p)) })
}

#[test]
fn created_session_ids_are_pairwise_distinct() {
    let mut router = MessageRouter::new();
    let mut sids: Vec<String> = Vec::new();
    for conn in 0..5u32 {
        sids.push(create(&mut router, conn));
    }
    for i in 0..sids.len() {
        for j in 0..sids.len() {
            if i != j {
                assert_ne!(sids[i], sids[j]);
            }
        }
    }
}

#[test]
fn created_session_id_is_a_rendered_uuid() {
    // The identifier comes from the relied-upon generator: 36 hyphenated
    // ASCII characters, appended to the fixed URL prefix.
    let mut router = MessageRouter::new();
    let out = router.handle_message(
        9,
        WebSocketMessage { message: Some(ProtoMessage::CreateSessionRequest(CreateSessionRequest {})) },
    );
    match &out[0].1.message {
        Some(ProtoMessage::CreateSessionResponse(resp)) => {
            let (prefix, sid) = resp.session_url.split_once("?sid=").unwrap();
            assert_eq!(prefix, "http://localhost:5173/client");
            assert!(resp.session_url.starts_with("http://localhost:5173/client?sid="));
            assert_eq!(sid.chars().count(), 36);
        }
        other => panic!("expected CreateSessionResponse, got {:?}", other),
    }
}

#[test]
fn joining_unknown_session_is_refused_and_changes_nothing() {
    let mut router = MessageRouter::new();
    let host: u32 = 0;
    let client: u32 = 1;
    let sid = create(&mut router, host);
    let _ = join(&mut router, client, &sid);

    assert!(router.contains_session(&sid.to_string()));
    assert!(!router.contains_session(&String::from("does-not-exist")));
    assert!(!join(&mut router, 2, "does-not-exist"));

    // The existing session's member collection is untouched: the one member
    // still receives exactly one copy.
    let delivered = send(&mut router, host, params(&sid));
    assert_eq!(delivered.len(), 1);
    assert_eq!(delivered[0].0, client);
}

#[test]
fn joining_twice_doubles_delivery() {
    let mut router = MessageRouter::new();
    let host: u32 = 0;
    let client: u32 = 1;
    let sid = create(&mut router, host);
    assert!(join(&mut router, client, &sid));
    assert!(join(&mut router, client, &sid));

    let delivered = send(&mut router, host, params(&sid));
    assert_eq!(delivered.len(), 2);
    assert_eq!(delivered[0].0, client);
    assert_eq!(delivered[1].0, client);

    // The member collection lists the double join twice.
    assert_eq!(router.members(&sid.to_string()), Some(vec![client, client]));
}

#[test]
fn fanout_reaches_members_only() {
    let mut router = MessageRouter::new();
    let sid_a = create(&mut router, 0);
    let sid_b = create(&mut router, 1);
    assert!(join(&mut router, 2, &sid_a));
    assert!(join(&mut router, 3, &sid_a));
    assert!(join(&mut router, 4, &sid_b));

    let p = params(&sid_a);
    let delivered = send(&mut router, 0, p.clone());
    let targets: Vec<u32> = delivered.iter().map(|(t, _)| *t).collect();
    assert_eq!(targets, vec![2, 3]);
    for (_, msg) in &delivered {
        match &msg.message {
            Some(ProtoMessage::Params(got)) => assert_eq!(*got, p),
            other => panic!("expected Params, got {:?}", other),
        }
    }

    // The host itself is not a member and receives nothing.
    assert!(!targets.contains(&0));
    // The other session's member receives nothing.
    assert!(!targets.contains(&4));
}

#[test]
fn params_for_unknown_session_are_dropped() {
    let mut router = MessageRouter::new();
    let host: u32 = 0;
    let client: u32 = 1;
    let sid = create(&mut router, host);
    assert!(join(&mut router, client, &sid));

    let delivered = send(&mut router, host, params("no-such-session"));
    assert_eq!(delivered.len(), 0);

    // The router is unharmed and the session intact.
    let delivered = send(&mut router, host, params(&sid));
    assert_eq!(delivered.len(), 1);
}

#[test]
fn unhandled_envelopes_do_nothing() {
    let mut router = MessageRouter::new();
    let host: u32 = 0;
    let client: u32 = 1;
    let sid = create(&mut router, host);
    assert!(join(&mut router, client, &sid));

    let out = router.handle_message(client, WebSocketMessage { message: None });
    assert_eq!(out.len(), 0);

    let out = router.handle_message(client, welcome_message(String::from("user_7")));
    assert_eq!(out.len(), 0);

    // The session still works afterwards.
    let delivered = send(&mut router, host, params(&sid));
    assert_eq!(delivered.len(), 1);
}

#[test]
fn welcome_message_carries_user_and_version() {
    let msg = welcome_message(String::from("user_4242"));
    match msg.message {
        Some(ProtoMessage::WelcomeResponse(w)) => {
            assert_eq!(w.user_id, "user_4242");
            let info = w.server_info.unwrap();
            assert_eq!(info.version, "1.0.0");
        }
        other => panic!("expected WelcomeResponse, got {:?}", other),
    }
}

//! The two registries taken on their own: identifier assignment and lookup
//! in the connection registry, and create/join/members in the session
//! registry.

use session_relay::registry::ConnectionRegistry;
use session_relay::sessions::{Session, SessionError, SessionRegistry};

#[test]
fn connection_ids_count_up_from_zero() {
    let mut registry: ConnectionRegistry<&str> = ConnectionRegistry::new();
    assert_eq!(registry.register("alpha"), 0);
    assert_eq!(registry.register("beta"), 1);
    assert_eq!(registry.register("gamma"), 2);
}

#[test]
fn get_returns_the_registered_handle() {
    let mut registry: ConnectionRegistry<String> = ConnectionRegistry::new();
    let a = registry.register(String::from("sender-a"));
    let b = registry.register(String::from("sender-b"));
    assert_eq!(registry.get(a).unwrap(), "sender-a");
    assert_eq!(registry.get(b).unwrap(), "sender-b");
    assert!(registry.get(99).is_none());
    assert!(registry.contains_connection(a));
    assert!(!registry.contains_connection(99));
}

#[test]
fn unregister_removes_without_reusing_ids() {
    let mut registry: ConnectionRegistry<&str> = ConnectionRegistry::new();
    let a = registry.register("alpha");
    let b = registry.register("beta");
    assert_eq!(registry.unregister(a), Some("alpha"));
    assert!(registry.get(a).is_none());
    assert_eq!(registry.get(b), Some(&"beta"));
    assert_eq!(registry.unregister(a), None);
    // The freed identifier is used up for good.
    let c = registry.register("gamma");
    assert_eq!(c, 2);
}

#[test]
fn session_registry_creates_and_joins() {
    let mut sessions = SessionRegistry::new();
    let sid = sessions.create_session(7);
    assert!(sessions.contains_session(&sid));
    assert!(!sessions.contains_session(&String::from("missing")));

    assert_eq!(sessions.join_session(3, &sid), Ok(()));
    assert_eq!(sessions.join_session(4, &sid), Ok(()));
    assert_eq!(sessions.members(&sid), Some(vec![3, 4]));

    // The host is not implicitly a member of its own session.
    assert!(!sessions.members(&sid).unwrap().contains(&7));
}

#[test]
fn join_of_unknown_session_reports_not_found() {
    let mut sessions = SessionRegistry::new();
    let missing = String::from("never-created");
    assert_eq!(sessions.join_session(5, &missing), Err(SessionError::SessionNotFound));
    assert_eq!(sessions.members(&missing), None);
}

#[test]
fn new_session_starts_without_members() {
    let _empty = Session::new(12);
    let mut sessions = SessionRegistry::new();
    let sid = sessions.create_session(12);
    assert_eq!(sessions.members(&sid), Some(vec![]));
}

//! Connection state machine: the chain from connecting through connected and
//! writable to closed and destroyed, and nothing outside it.

use utp::conn_state::ConnPhase;
use utp::conn_state::ConnTracker;
use utp::UtpState;

#[test]
fn a_connection_becomes_connected_before_anything_else() {
    let mut conn = ConnTracker::new();
    assert_eq!(conn.phase(), ConnPhase::Connecting);
    assert!(!conn.observe(UtpState::Writable));
    assert!(!conn.observe(UtpState::ConnectionClosed));
    assert!(!conn.observe(UtpState::Destroying));
    assert_eq!(conn.phase(), ConnPhase::Connecting);
    assert!(conn.observe(UtpState::Connected));
    assert_eq!(conn.phase(), ConnPhase::Established);
}

#[test]
fn the_full_chain_is_accepted() {
    let mut conn = ConnTracker::new();
    assert!(conn.observe(UtpState::Connected));
    assert!(conn.observe(UtpState::Writable));
    assert!(conn.observe(UtpState::Writable));
    assert!(conn.observe(UtpState::ConnectionClosed));
    assert_eq!(conn.phase(), ConnPhase::Closed);
    assert!(conn.observe(UtpState::Destroying));
    assert_eq!(conn.phase(), ConnPhase::Destroyed);
}

#[test]
fn nothing_is_accepted_after_destruction() {
    let mut conn = ConnTracker::new();
    assert!(conn.observe(UtpState::Connected));
    assert!(conn.observe(UtpState::ConnectionClosed));
    assert!(conn.observe(UtpState::Destroying));
    for event in [
        UtpState::Connected,
        UtpState::Writable,
        UtpState::ConnectionClosed,
        UtpState::Destroying,
    ] {
        assert!(!conn.observe(event));
        assert_eq!(conn.phase(), ConnPhase::Destroyed);
    }
}

#[test]
fn a_second_connected_event_is_rejected() {
    let mut conn = ConnTracker::new();
    assert!(conn.observe(UtpState::Connected));
    assert!(!conn.observe(UtpState::Connected));
    assert_eq!(conn.phase(), ConnPhase::Established);
}

#[test]
fn destruction_straight_from_established_is_rejected() {
    let mut conn = ConnTracker::new();
    assert!(conn.observe(UtpState::Connected));
    assert!(!conn.observe(UtpState::Destroying));
    assert_eq!(conn.phase(), ConnPhase::Established);
}

#[test]
fn two_simultaneous_connectors_both_reach_connected() {
    // Two endpoints issue connect toward each other; each side's first
    // accepted event is its own connected notification.
    let mut one = ConnTracker::new();
    let mut two = ConnTracker::new();
    assert!(one.observe(UtpState::Connected));
    assert!(two.observe(UtpState::Connected));
    assert_eq!(one.phase(), ConnPhase::Established);
    assert_eq!(two.phase(), ConnPhase::Established);
    assert!(one.observe(UtpState::Writable));
    assert!(two.observe(UtpState::Writable));
}

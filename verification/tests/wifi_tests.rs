use airqual::net::{WifiAction, WifiEvent, WifiPhase};

#[test]
fn connected_station_is_left_alone() {
    let (p, a) = WifiPhase::boot();
    assert_eq!(a, WifiAction::Sleep(500));
    let (p, a) = p.step(WifiEvent::Done);
    assert_eq!(a, WifiAction::CheckLink);
    let (p, a) = p.step(WifiEvent::Link { connected: true });
    assert_eq!(a, WifiAction::Sleep(10_000));
    let (p, a) = p.step(WifiEvent::Done);
    assert_eq!(a, WifiAction::CheckLink);
    assert_eq!(p, WifiPhase::Checking);
}

#[test]
fn disconnected_station_is_configured_started_and_connected() {
    let p = WifiPhase::Checking;
    let (p, a) = p.step(WifiEvent::Link { connected: false });
    assert_eq!(a, WifiAction::ApplyConfig);
    let (p, a) = p.step(WifiEvent::Configured { ok: true });
    assert_eq!(a, WifiAction::QueryStarted);
    let (p, a) = p.step(WifiEvent::Started { started: Some(false) });
    assert_eq!(a, WifiAction::Start);
    let (p, a) = p.step(WifiEvent::Done);
    assert_eq!(a, WifiAction::Connect);
    let (p, a) = p.step(WifiEvent::Connected { ok: true });
    assert_eq!(a, WifiAction::Announce { connected: true });
    let (p, a) = p.step(WifiEvent::Done);
    assert_eq!(a, WifiAction::Sleep(10_000));
    assert_eq!(p, WifiPhase::Resting);
}

#[test]
fn started_radio_is_not_started_again() {
    let (p, a) = WifiPhase::Querying.step(WifiEvent::Started { started: Some(true) });
    assert_eq!(a, WifiAction::Connect);
    let (_, a) = p.step(WifiEvent::Connected { ok: false });
    assert_eq!(a, WifiAction::Announce { connected: false });
}

#[test]
fn unknown_start_state_counts_as_stopped() {
    let (_, a) = WifiPhase::Querying.step(WifiEvent::Started { started: None });
    assert_eq!(a, WifiAction::Start);
}

#[test]
fn refused_configuration_waits_for_the_next_round() {
    let (p, a) = WifiPhase::Configuring.step(WifiEvent::Configured { ok: false });
    assert_eq!(a, WifiAction::Sleep(10_000));
    assert_eq!(p, WifiPhase::Resting);
}

#[test]
fn each_round_connects_at_most_once_between_pauses() {
    // A station that never comes up, a radio that accepts its configuration
    // and never reports being started, and connections that always fail.
    let (mut phase, _) = WifiPhase::boot();
    let mut connects_since_pause = 0;
    let mut rounds = 0;
    for _ in 0..200 {
        let event = match phase {
            WifiPhase::Checking => WifiEvent::Link { connected: false },
            WifiPhase::Configuring => WifiEvent::Configured { ok: true },
            WifiPhase::Querying => WifiEvent::Started { started: Some(false) },
            WifiPhase::Connecting => WifiEvent::Connected { ok: false },
            _ => WifiEvent::Done,
        };
        let (next, action) = phase.step(event);
        if action == WifiAction::Connect {
            connects_since_pause += 1;
            assert!(connects_since_pause <= 1);
        }
        if action == WifiAction::Sleep(10_000) {
            assert_eq!(connects_since_pause, 1);
            connects_since_pause = 0;
            rounds += 1;
        }
        phase = next;
    }
    assert!(rounds > 20);
}

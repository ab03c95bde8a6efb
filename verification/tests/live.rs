use wsprrs_web::live::{
    reconnect_delay_ms, LiveAction, LiveController, LiveEvent, LiveState, MAX_RECONNECT_ATTEMPTS,
};

#[test]
fn badge_classes_and_labels() {
    assert_eq!(LiveState::Off.css_class(), "off");
    assert_eq!(LiveState::Connecting.css_class(), "connecting");
    assert_eq!(LiveState::Connected.css_class(), "connected");
    assert_eq!(LiveState::Error.css_class(), "error");
    assert_eq!(LiveState::Reconnecting(3).css_class(), "reconnecting");
    assert_eq!(LiveState::Off.label(), "Live off");
    assert_eq!(LiveState::Connecting.label(), "Connecting...");
    assert_eq!(LiveState::Connected.label(), "Live");
    assert_eq!(LiveState::Error.label(), "Disconnected");
    assert_eq!(LiveState::Reconnecting(1).label(), "Reconnecting...");
    assert!(LiveState::Connected.is_live() && LiveState::Connecting.is_live());
    assert!(!LiveState::Off.is_live() && !LiveState::Reconnecting(2).is_live());
}

#[test]
fn backoff_schedule() {
    let delays: Vec<u32> = (0..12).map(reconnect_delay_ms).collect();
    assert_eq!(
        delays,
        vec![1000, 2000, 4000, 8000, 16000, 30000, 30000, 30000, 30000, 30000, 30000, 30000]
    );
    assert_eq!(reconnect_delay_ms(u32::MAX), 30000);
}

#[test]
fn failures_back_off_then_give_up() {
    let (mut c, a) = LiveController::start();
    assert_eq!(c, LiveController { state: LiveState::Connecting, attempt: 0 });
    assert!(a.open_stream && a.close_stream);
    let mut delays = Vec::new();
    for n in 1..=MAX_RECONNECT_ATTEMPTS {
        let (next, act) = c.step(LiveEvent::Failed);
        assert_eq!(next.state, LiveState::Reconnecting(n));
        assert!(act.close_stream && !act.open_stream);
        delays.push(act.retry_after_ms.unwrap());
        let (again, act2) = next.step(LiveEvent::RetryDue);
        assert_eq!(again.state, LiveState::Connecting);
        assert!(act2.open_stream);
        c = again;
    }
    assert_eq!(delays, vec![1000, 2000, 4000, 8000, 16000, 30000, 30000, 30000, 30000, 30000]);
    let (dead, act) = c.step(LiveEvent::Failed);
    assert_eq!(dead, LiveController { state: LiveState::Error, attempt: 0 });
    assert_eq!(act.retry_after_ms, None);
}

#[test]
fn open_resets_backoff() {
    let c = LiveController { state: LiveState::Connecting, attempt: 4 };
    let (n, a) = c.step(LiveEvent::Opened);
    assert_eq!(n, LiveController { state: LiveState::Connected, attempt: 0 });
    assert_eq!(a, LiveAction { close_stream: false, open_stream: false, retry_after_ms: None, refetch: false });
}

#[test]
fn toggles_timer_and_spots() {
    let c = LiveController { state: LiveState::Reconnecting(2), attempt: 2 };
    let (off, a) = c.step(LiveEvent::Toggle(false));
    assert_eq!(off, LiveController { state: LiveState::Off, attempt: 0 });
    assert!(a.close_stream);
    // A retry timer firing after the user switched off changes nothing.
    let (still, a2) = off.step(LiveEvent::RetryDue);
    assert_eq!(still, off);
    assert_eq!(a2, LiveAction { close_stream: false, open_stream: false, retry_after_ms: None, refetch: false });
    let (on, a3) = off.step(LiveEvent::Toggle(true));
    assert_eq!(on.state, LiveState::Connecting);
    assert!(a3.open_stream);
    let (same, a4) = on.step(LiveEvent::SpotsArrived);
    assert_eq!(same, on);
    assert!(a4.refetch);
}

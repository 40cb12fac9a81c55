use lgo1_trio::{
    default_policy, DebounceAction, DebounceAggregator, DebounceEvent, DeviceId, InputDeviceInfo,
    Phase, PresenceClass, BUS_USB, KEY_BACKSPACE, KEY_ENTER, KEY_ESC, POLL_INTERVAL_MS,
    QUIET_WINDOW_MS,
};

#[test]
fn starts_idle_with_nothing_published() {
    let agg = DebounceAggregator::new();
    assert_eq!(agg.phase, Phase::Idle);
    assert_eq!(agg.last_published, PresenceClass::NoExternal);
    assert_eq!(agg.wait_ms(), POLL_INTERVAL_MS);
    assert_eq!(POLL_INTERVAL_MS, 120000);
}

#[test]
fn burst_of_signals_reclassifies_once() {
    let mut agg = DebounceAggregator::new();
    let mut reclassifications = 0;
    for _ in 0..5 {
        if agg.on_event(DebounceEvent::Signal) == DebounceAction::Reclassify {
            reclassifications += 1;
        }
        assert_eq!(agg.phase, Phase::Settling);
        assert_eq!(agg.wait_ms(), QUIET_WINDOW_MS);
    }
    if agg.on_event(DebounceEvent::Timeout) == DebounceAction::Reclassify {
        reclassifications += 1;
    }
    assert_eq!(reclassifications, 1);
    assert_eq!(agg.phase, Phase::Idle);
    assert_eq!(QUIET_WINDOW_MS, 1000);
}

#[test]
fn idle_timeout_reclassifies_anyway() {
    let mut agg = DebounceAggregator::new();
    assert_eq!(agg.on_event(DebounceEvent::Timeout), DebounceAction::Reclassify);
    assert_eq!(agg.phase, Phase::Idle);
}

#[test]
fn equal_results_publish_once() {
    let mut agg = DebounceAggregator::new();
    assert_eq!(agg.publish(PresenceClass::AnyExternal), Some(PresenceClass::AnyExternal));
    assert_eq!(agg.publish(PresenceClass::AnyExternal), None);
    assert_eq!(agg.publish(PresenceClass::CaseExternal), Some(PresenceClass::CaseExternal));
    assert_eq!(agg.publish(PresenceClass::NoExternal), Some(PresenceClass::NoExternal));
    assert_eq!(agg.publish(PresenceClass::NoExternal), None);
}

#[test]
fn initial_none_is_not_republished() {
    let mut agg = DebounceAggregator::new();
    assert_eq!(agg.publish(PresenceClass::NoExternal), None);
}

#[test]
fn reclassify_publishes_changes_only() {
    let policy = default_policy();
    let mut agg = DebounceAggregator::new();
    let snapshot = vec![InputDeviceInfo::new(
        DeviceId::new(BUS_USB, 0x1234, 0x5678),
        vec![KEY_ENTER, KEY_BACKSPACE, KEY_ESC],
        String::from("usb keyboard"),
    )];
    assert_eq!(agg.reclassify(&snapshot, &policy), Some(PresenceClass::AnyExternal));
    assert_eq!(agg.reclassify(&snapshot, &policy), None);
    assert_eq!(agg.last_published, PresenceClass::AnyExternal);
    assert_eq!(agg.reclassify(&vec![], &policy), Some(PresenceClass::NoExternal));
}

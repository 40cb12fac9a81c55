use lgo1_trio::{
    default_policy, forward_key, is_hotplug_signal, presence_switch_event, tablet_mode_event,
    HotplugAction, SyntheticEvent, EV_KEY, EV_SW, SW_TABLET_MODE,
};

#[test]
fn tablet_mode_events() {
    assert_eq!(tablet_mode_event(true), SyntheticEvent { kind: 5, code: 1, value: 1 });
    assert_eq!(tablet_mode_event(false), SyntheticEvent { kind: EV_SW, code: SW_TABLET_MODE, value: 0 });
}

#[test]
fn keyboard_presence_turns_tablet_mode_off() {
    assert_eq!(presence_switch_event(true).value, 0);
    assert_eq!(presence_switch_event(false).value, 1);
}

#[test]
fn volume_keys_are_forwarded() {
    let policy = default_policy();
    assert_eq!(forward_key(&policy, 114, 1), Some(SyntheticEvent { kind: EV_KEY, code: 114, value: 1 }));
    assert_eq!(forward_key(&policy, 115, 0), Some(SyntheticEvent { kind: 1, code: 115, value: 0 }));
    assert_eq!(forward_key(&policy, 28, 1), None);
}

#[test]
fn only_add_and_remove_are_hotplug_signals() {
    assert!(is_hotplug_signal(HotplugAction::Add));
    assert!(is_hotplug_signal(HotplugAction::Remove));
    assert!(!is_hotplug_signal(HotplugAction::Change));
    assert!(!is_hotplug_signal(HotplugAction::Other));
}

//! Detection of an external keyboard on a convertible laptop, and the
//! debounced decisions that drive a synthetic tablet-mode switch.
//!
//! `classify` turns a snapshot of the attached input devices into a
//! [`PresenceClass`]; [`DebounceAggregator`] decides when to take a snapshot
//! and when a result is worth publishing; [`EdgeCounter`] follows a stream
//! of device additions and removals and reports only zero crossings.

mod classify;
mod debounce;
mod device;
mod edge;
mod emit;

pub use classify::{
    case_outranks_everything, classification, classification_depends_on_devices_only, classify,
    device_qualifies, find_device, is_blacklisted, is_case, is_keyboard_by_name,
    looks_like_keyboard, nothing_qualifying_means_none, qualifies, qualifying_device_means_any,
    status_code, supports_all, PresenceClass,
};
pub use debounce::{
    action_for, burst, burst_reclassifies_once, equal_outcomes_publish_at_most_once, next_phase,
    phase_after, publication, reclassifications, signals_alone_never_reclassify, wait_for,
    DebounceAction, DebounceAggregator, DebounceEvent, Phase, POLL_INTERVAL_MS, QUIET_WINDOW_MS,
};
pub use device::{
    contains_id, contains_name, contains_u16, default_policy, ClassificationPolicy, DeviceId,
    InputDeviceInfo, BUS_BLUETOOTH, BUS_I8042, BUS_USB, KEY_BACKSPACE, KEY_ENTER, KEY_ESC,
    KEY_VOLUMEDOWN, KEY_VOLUMEUP,
};
pub use edge::{
    count_after, emission, emissions, emissions_exactly_at_zero_crossings, net_count, next_count,
    no_emission_between_positive_counts, EdgeCounter, EdgeDirection,
};
pub use emit::{
    forward_key, is_hotplug_signal, presence_switch_event, tablet_mode_event, HotplugAction,
    SyntheticEvent, EV_KEY, EV_SW, SW_TABLET_MODE,
};

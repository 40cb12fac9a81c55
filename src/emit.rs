use vstd::prelude::*;
use crate::device::{contains_u16, ClassificationPolicy};

verus! {

/// Kernel event type of key presses.
pub const EV_KEY: u16 = 0x01;

/// Kernel event type of switches.
pub const EV_SW: u16 = 0x05;

/// Kernel switch code of the tablet-mode switch.
pub const SW_TABLET_MODE: u16 = 0x01;

/// One event for the synthetic input device: type, code and value as the
/// kernel input layer has them.
#[derive(Clone, Copy, Debug, PartialEq, Eq, Structural)]
pub struct SyntheticEvent {
    pub kind: u16,
    pub code: u16,
    pub value: i32,
}

/// What the device monitor says happened to a device.
#[derive(Clone, Copy, Debug, PartialEq, Eq, Structural)]
pub enum HotplugAction {
    Add,
    Remove,
    Change,
    Other,
}

/// Setting the tablet-mode switch on (1) or off (0).
pub fn tablet_mode_event(on: bool) -> (r: SyntheticEvent)
    ensures
        r == (SyntheticEvent { kind: EV_SW, code: SW_TABLET_MODE, value: if on { 1i32 } else { 0i32 } }),
{
    SyntheticEvent { kind: EV_SW, code: SW_TABLET_MODE, value: if on { 1 } else { 0 } }
}

/// The tablet-mode switch for a presence change: an attached external
/// keyboard turns tablet mode off, its going away turns it back on.
pub fn presence_switch_event(keyboard_present: bool) -> (r: SyntheticEvent)
    ensures
        r == (SyntheticEvent { kind: EV_SW, code: SW_TABLET_MODE, value: if keyboard_present { 0i32 } else { 1i32 } }),
{
    tablet_mode_event(!keyboard_present)
}

/// The key event to mirror for a raw key event of the internal keyboard:
/// the same code and value where the policy forwards that key, else none.
pub fn forward_key(policy: &ClassificationPolicy, code: u16, value: i32) -> (r: Option<SyntheticEvent>)
    ensures
        r == (if policy.forward_keys@.contains(code) {
            Some(SyntheticEvent { kind: EV_KEY, code: code, value: value })
        } else {
            None
        }),
{
    if contains_u16(&policy.forward_keys, code) {
        Some(SyntheticEvent { kind: EV_KEY, code, value })
    } else {
        None
    }
}

/// Whether a monitor event may have changed the set of input devices:
/// additions and removals do, other actions do not.
pub fn is_hotplug_signal(action: HotplugAction) -> (r: bool)
    ensures
        r == (action == HotplugAction::Add || action == HotplugAction::Remove),
{
    match action {
        HotplugAction::Add | HotplugAction::Remove => true,
        _ => false,
    }
}

} // verus!

use vstd::prelude::*;
use crate::device::{contains_id, contains_name, contains_u16, ClassificationPolicy, DeviceId, InputDeviceInfo};

verus! {

/// What kind of external keyboard is attached, in order of precedence.
#[derive(Clone, Copy, Debug, PartialEq, Eq, Structural)]
pub enum PresenceClass {
    /// The keyboard-case accessory is attached.
    CaseExternal,
    /// Some other external keyboard is attached.
    AnyExternal,
    /// No qualifying external keyboard is attached.
    NoExternal,
}

/// The device is the keyboard-case accessory.
pub open spec fn is_case(d: InputDeviceInfo, p: ClassificationPolicy) -> bool {
    d.id == p.case_identity
}

/// The device reports every probe key.
pub open spec fn looks_like_keyboard(d: InputDeviceInfo, p: ClassificationPolicy) -> bool {
    forall|k: u16| p.probe_keys@.contains(k) ==> d.supported_keys@.contains(k)
}

/// The device is one of the machine's own keyboards.
pub open spec fn is_blacklisted(d: InputDeviceInfo, p: ClassificationPolicy) -> bool {
    p.internal_blacklist@.contains(d.id)
}

/// The device counts as an external keyboard.
pub open spec fn qualifies(d: InputDeviceInfo, p: ClassificationPolicy) -> bool {
    looks_like_keyboard(d, p) && !is_blacklisted(d, p)
}

/// The class of a snapshot: the case if it is there, else any qualifying
/// keyboard, else none.
pub open spec fn classification(ds: Seq<InputDeviceInfo>, p: ClassificationPolicy) -> PresenceClass {
    if exists|i: int| 0 <= i < ds.len() && is_case(#[trigger] ds[i], p) {
        PresenceClass::CaseExternal
    } else if exists|i: int| 0 <= i < ds.len() && qualifies(#[trigger] ds[i], p) {
        PresenceClass::AnyExternal
    } else {
        PresenceClass::NoExternal
    }
}

/// A snapshot that holds the keyboard case is classified as the case,
/// whatever else it holds and wherever the case stands in it.
pub proof fn case_outranks_everything(ds: Seq<InputDeviceInfo>, p: ClassificationPolicy, i: int)
    requires
        0 <= i < ds.len(),
        is_case(ds[i], p),
    ensures
        classification(ds, p) == PresenceClass::CaseExternal,
{
}

/// Without the case, a snapshot in which no device qualifies, because none
/// reports the probe keys or each one that does is one of the machine's own,
/// is classified as having no external keyboard.
pub proof fn nothing_qualifying_means_none(ds: Seq<InputDeviceInfo>, p: ClassificationPolicy)
    requires
        forall|i: int| 0 <= i < ds.len() ==> !is_case(#[trigger] ds[i], p),
        (forall|i: int| 0 <= i < ds.len() ==> !looks_like_keyboard(#[trigger] ds[i], p))
            || (forall|i: int| 0 <= i < ds.len() && looks_like_keyboard(#[trigger] ds[i], p)
                ==> is_blacklisted(ds[i], p)),
    ensures
        classification(ds, p) == PresenceClass::NoExternal,
{
    assert(!exists|i: int| 0 <= i < ds.len() && qualifies(#[trigger] ds[i], p));
}

/// Without the case, a snapshot with at least one qualifying device that is
/// not one of the machine's own is classified as having an external keyboard.
pub proof fn qualifying_device_means_any(ds: Seq<InputDeviceInfo>, p: ClassificationPolicy, i: int)
    requires
        0 <= i < ds.len(),
        looks_like_keyboard(ds[i], p),
        !is_blacklisted(ds[i], p),
        forall|j: int| 0 <= j < ds.len() ==> !is_case(#[trigger] ds[j], p),
    ensures
        classification(ds, p) == PresenceClass::AnyExternal,
{
    assert(qualifies(ds[i], p));
}

/// Classification depends on which devices are present and nothing else:
/// two snapshots holding the same devices, in any order and with any
/// repetition, get the same class, so classifying an unchanged snapshot
/// again gives the same result.
pub proof fn classification_depends_on_devices_only(a: Seq<InputDeviceInfo>, b: Seq<InputDeviceInfo>, p: ClassificationPolicy)
    requires
        forall|d: InputDeviceInfo| a.contains(d) <==> b.contains(d),
    ensures
        classification(a, p) == classification(b, p),
{
    witnesses_carry_over(a, b, p);
    witnesses_carry_over(b, a, p);
}

proof fn witnesses_carry_over(x: Seq<InputDeviceInfo>, y: Seq<InputDeviceInfo>, p: ClassificationPolicy)
    requires
        forall|d: InputDeviceInfo| x.contains(d) ==> y.contains(d),
    ensures
        (exists|i: int| 0 <= i < x.len() && is_case(#[trigger] x[i], p))
            ==> (exists|i: int| 0 <= i < y.len() && is_case(#[trigger] y[i], p)),
        (exists|i: int| 0 <= i < x.len() && qualifies(#[trigger] x[i], p))
            ==> (exists|i: int| 0 <= i < y.len() && qualifies(#[trigger] y[i], p)),
{
    if exists|i: int| 0 <= i < x.len() && is_case(#[trigger] x[i], p) {
        let i = choose|i: int| 0 <= i < x.len() && is_case(#[trigger] x[i], p);
        assert(x.contains(x[i]));
        let j = choose|j: int| 0 <= j < y.len() && y[j] == x[i];
        assert(is_case(y[j], p));
    }
    if exists|i: int| 0 <= i < x.len() && qualifies(#[trigger] x[i], p) {
        let i = choose|i: int| 0 <= i < x.len() && qualifies(#[trigger] x[i], p);
        assert(x.contains(x[i]));
        let j = choose|j: int| 0 <= j < y.len() && y[j] == x[i];
        assert(qualifies(y[j], p));
    }
}

/// Whether `keys` holds every key of `probe`.
pub fn supports_all(keys: &Vec<u16>, probe: &Vec<u16>) -> (r: bool)
    ensures
        r == forall|k: u16| probe@.contains(k) ==> keys@.contains(k),
{
    let mut i: usize = 0;
    while i < probe.len()
        invariant
            0 <= i <= probe@.len(),
            forall|j: int| 0 <= j < i ==> keys@.contains(#[trigger] probe@[j]),
        decreases probe@.len() - i,
    {
        if !contains_u16(keys, probe[i]) {
            assert(probe@.contains(probe@[i as int]));
            return false;
        }
        i += 1;
    }
    true
}

/// Whether one device counts as an external keyboard under `policy`.
pub fn device_qualifies(d: &InputDeviceInfo, policy: &ClassificationPolicy) -> (r: bool)
    ensures
        r == qualifies(*d, *policy),
{
    supports_all(&d.supported_keys, &policy.probe_keys) && !contains_id(&policy.internal_blacklist, d.id)
}

/// Classifies a snapshot of the attached devices.
///
/// The scan stops at the keyboard case, which outranks everything, but never
/// at a plain external keyboard, since the case may come later.
pub fn classify(devices: &Vec<InputDeviceInfo>, policy: &ClassificationPolicy) -> (r: PresenceClass)
    ensures
        r == classification(devices@, *policy),
{
    let mut any = false;
    let mut i: usize = 0;
    while i < devices.len()
        invariant
            0 <= i <= devices@.len(),
            forall|j: int| 0 <= j < i ==> !is_case(#[trigger] devices@[j], *policy),
            any == exists|j: int| 0 <= j < i && qualifies(#[trigger] devices@[j], *policy),
        decreases devices@.len() - i,
    {
        let d = &devices[i];
        if d.id == policy.case_identity {
            return PresenceClass::CaseExternal;
        }
        if !any && device_qualifies(d, policy) {
            any = true;
        }
        i += 1;
    }
    if any {
        PresenceClass::AnyExternal
    } else {
        PresenceClass::NoExternal
    }
}

/// The value published for a class: 2 for the case, 1 for any other
/// external keyboard, 0 for none.
pub fn status_code(c: PresenceClass) -> (r: u32)
    ensures
        r == match c {
            PresenceClass::CaseExternal => 2u32,
            PresenceClass::AnyExternal => 1u32,
            PresenceClass::NoExternal => 0u32,
        },
{
    match c {
        PresenceClass::CaseExternal => 2,
        PresenceClass::AnyExternal => 1,
        PresenceClass::NoExternal => 0,
    }
}

/// Whether a device reported by name only counts as an external keyboard:
/// it has the keyboard capability and its name is not one of the machine's own.
pub fn is_keyboard_by_name(has_keyboard_capability: bool, name: &String, policy: &ClassificationPolicy) -> (r: bool)
    ensures
        r == (has_keyboard_capability && !exists|j: int|
            0 <= j < policy.name_blacklist@.len() && policy.name_blacklist@[j]@ == name@),
{
    has_keyboard_capability && !contains_name(&policy.name_blacklist, name)
}

/// The index of the first device in `ids` that is `wanted`, if any.
pub fn find_device(ids: &Vec<DeviceId>, wanted: DeviceId) -> (r: Option<usize>)
    ensures
        r.is_none() <==> !ids@.contains(wanted),
        r matches Some(i) ==> i < ids@.len() && ids@[i as int] == wanted
            && forall|j: int| 0 <= j < i ==> ids@[j] != wanted,
{
    let mut i: usize = 0;
    while i < ids.len()
        invariant
            0 <= i <= ids@.len(),
            forall|j: int| 0 <= j < i ==> ids@[j] != wanted,
        decreases ids@.len() - i,
    {
        if ids[i] == wanted {
            return Some(i);
        }
        i += 1;
    }
    None
}

} // verus!

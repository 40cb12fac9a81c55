use vstd::prelude::*;

verus! {

/// Kernel bus number of the internal i8042 keyboard controller.
pub const BUS_I8042: u16 = 0x11;

/// Kernel bus number of USB devices.
pub const BUS_USB: u16 = 0x03;

/// Kernel bus number of Bluetooth devices.
pub const BUS_BLUETOOTH: u16 = 0x05;

/// The (bus, vendor, product) triple that identifies a physical input device.
#[derive(Clone, Copy, Debug, PartialEq, Eq, Structural)]
pub struct DeviceId {
    pub bus: u16,
    pub vendor: u16,
    pub product: u16,
}

impl DeviceId {
    pub open spec fn spec_new(bus: u16, vendor: u16, product: u16) -> DeviceId {
        DeviceId { bus, vendor, product }
    }

    pub fn new(bus: u16, vendor: u16, product: u16) -> (r: DeviceId)
        ensures
            r == DeviceId::spec_new(bus, vendor, product),
    {
        DeviceId { bus, vendor, product }
    }
}

/// A snapshot of one input device, taken at one instant.
#[derive(Clone, Debug)]
pub struct InputDeviceInfo {
    pub id: DeviceId,
    /// Key codes that the device declares it can report.
    pub supported_keys: Vec<u16>,
    /// Human-readable device name.
    pub display_name: String,
}

impl InputDeviceInfo {
    pub fn new(id: DeviceId, supported_keys: Vec<u16>, display_name: String) -> (r: InputDeviceInfo)
        ensures
            r.id == id,
            r.supported_keys@ == supported_keys@,
            r.display_name@ == display_name@,
    {
        InputDeviceInfo { id, supported_keys, display_name }
    }
}

} // verus!

verus! {

/// Key codes of the kernel input layer used by the default policy.
pub const KEY_ESC: u16 = 1;

pub const KEY_BACKSPACE: u16 = 14;

pub const KEY_ENTER: u16 = 28;

pub const KEY_VOLUMEDOWN: u16 = 114;

pub const KEY_VOLUMEUP: u16 = 115;

/// Static rules that decide what an attached device counts as.
#[derive(Clone, Debug)]
pub struct ClassificationPolicy {
    /// The device that is the keyboard-case accessory.
    pub case_identity: DeviceId,
    /// A device must report every one of these keys to look like a keyboard.
    pub probe_keys: Vec<u16>,
    /// Devices that look like a keyboard but are part of the machine itself.
    pub internal_blacklist: Vec<DeviceId>,
    /// Names of devices that are part of the machine itself, for event
    /// sources that report a device by its name only.
    pub name_blacklist: Vec<String>,
    /// Keys mirrored from the internal keyboard to the synthetic device.
    pub forward_keys: Vec<u16>,
    /// The built-in keyboard whose forwarded keys are mirrored.
    pub internal_keyboard: DeviceId,
}

/// Whether `v` holds `k`.
pub fn contains_u16(v: &Vec<u16>, k: u16) -> (r: bool)
    ensures
        r == v@.contains(k),
{
    let mut i: usize = 0;
    while i < v.len()
        invariant
            0 <= i <= v@.len(),
            forall|j: int| 0 <= j < i ==> v@[j] != k,
        decreases v@.len() - i,
    {
        if v[i] == k {
            return true;
        }
        i += 1;
    }
    false
}

/// Whether `v` holds `id`.
pub fn contains_id(v: &Vec<DeviceId>, id: DeviceId) -> (r: bool)
    ensures
        r == v@.contains(id),
{
    let mut i: usize = 0;
    while i < v.len()
        invariant
            0 <= i <= v@.len(),
            forall|j: int| 0 <= j < i ==> v@[j] != id,
        decreases v@.len() - i,
    {
        if v[i] == id {
            return true;
        }
        i += 1;
    }
    false
}

/// Whether `v` holds a string equal to `s`.
pub fn contains_name(v: &Vec<String>, s: &String) -> (r: bool)
    ensures
        r == exists|j: int| 0 <= j < v@.len() && v@[j]@ == s@,
{
    let mut i: usize = 0;
    while i < v.len()
        invariant
            0 <= i <= v@.len(),
            forall|j: int| 0 <= j < i ==> v@[j]@ != s@,
        decreases v@.len() - i,
    {
        if v[i] == *s {
            return true;
        }
        i += 1;
    }
    false
}

/// The policy of the detachable keyboard laptop this library was made for:
/// its Bluetooth keyboard case, its two built-in keyboards, and its volume keys.
pub fn default_policy() -> (p: ClassificationPolicy)
    ensures
        p.case_identity == DeviceId::spec_new(BUS_BLUETOOTH, 0x04e8, 0x7021),
        p.probe_keys@ == seq![KEY_ENTER, KEY_BACKSPACE, KEY_ESC],
        p.internal_blacklist@ == seq![
            DeviceId::spec_new(BUS_I8042, 0x1, 0x1),
            DeviceId::spec_new(BUS_USB, 0x17ef, 0x6184),
        ],
        p.name_blacklist@.len() == 5,
        p.name_blacklist@[0]@ == "Video Bus"@,
        p.name_blacklist@[1]@ == "Power Button"@,
        p.name_blacklist@[2]@ == "Legion-Controller 1-B0 Keyboard"@,
        p.name_blacklist@[3]@ == "Ideapad extra buttons"@,
        p.name_blacklist@[4]@ == "AT Translated Set 2 keyboard"@,
        p.forward_keys@ == seq![KEY_VOLUMEDOWN, KEY_VOLUMEUP],
        p.internal_keyboard == DeviceId::spec_new(BUS_I8042, 0x1, 0x1),
{
    let mut names: Vec<String> = Vec::new();
    names.push(String::from_str("Video Bus"));
    names.push(String::from_str("Power Button"));
    names.push(String::from_str("Legion-Controller 1-B0 Keyboard"));
    names.push(String::from_str("Ideapad extra buttons"));
    names.push(String::from_str("AT Translated Set 2 keyboard"));
    ClassificationPolicy {
        case_identity: DeviceId::new(BUS_BLUETOOTH, 0x04e8, 0x7021),
        probe_keys: vec![KEY_ENTER, KEY_BACKSPACE, KEY_ESC],
        internal_blacklist: vec![DeviceId::new(BUS_I8042, 0x1, 0x1), DeviceId::new(BUS_USB, 0x17ef, 0x6184)],
        name_blacklist: names,
        forward_keys: vec![KEY_VOLUMEDOWN, KEY_VOLUMEUP],
        internal_keyboard: DeviceId::new(BUS_I8042, 0x1, 0x1),
    }
}

} // verus!

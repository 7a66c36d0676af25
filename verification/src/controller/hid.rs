//! Which of the devices that the system announces are wands.
//!
//! The system is asked by the caller. This module takes what it answered,
//! as plain strings, and says which devices count and what became of them.

use vstd::prelude::*;
use vstd::string::StringSliceAdditionalSpecFns;
use vstd::utf8::encode_utf8;

verus! {

/// Number of the USB bus in a device id.
pub const BUS_USB: u8 = 0x03;

/// Number of the Bluetooth bus in a device id.
pub const BUS_BLUETOOTH: u8 = 0x05;

/// Vendor id of all wands.
pub const PSMOVE_VID: u16 = 0x054c;

/// Product id of the first hardware revision.
pub const PSMOVE_PS3_PID: u16 = 0x03d5;

/// Product id of the second hardware revision.
pub const PSMOVE_PS4_PID: u16 = 0x0c5e;

/// The bus that a device hangs on.
#[derive(Debug, Clone, Copy, PartialEq, Eq, Structural)]
pub enum Bus {
    USB,
    BLUETOOTH,
    UNKNOWN,
}

/// The hardware revision of a wand.
#[derive(Debug, Clone, Copy, PartialEq, Eq, Structural)]
pub enum Model {
    ZCM1,
    ZCM2,
}

/// A device as the system describes it.
#[derive(Debug)]
pub struct Device {
    /// The device node.
    pub path: String,
    pub bus: Bus,
    pub vendor_id: u16,
    pub product_id: u16,
    /// The address of the device, as text.
    pub address: String,
    /// The address of the host adapter, as text.
    pub controller: String,
}

/// The coming or going of a wand.
#[derive(Debug)]
pub enum Event {
    Added(Device),
    /// The device at this node is gone.
    Removed(String),
}

/// Why the description of a device could not be read.
#[derive(Debug, Clone, Copy, PartialEq, Eq, Structural)]
pub enum DeviceError {
    /// The device has no parent in the HID subsystem.
    NotHid,
    /// The parent has no id property.
    NoHidId,
    /// The id property is not made of three parts with colons between.
    IllegalHidId,
    /// The vendor part of the id is no 16-bit hexadecimal number.
    IllegalVendorId,
    /// The product part of the id is no 16-bit hexadecimal number.
    IllegalProductId,
    /// The parent has no property with the address of the device.
    NoHidUniq,
    /// The parent has no property with the address of the host.
    NoHidPhys,
}

/// The properties of the HID parent of a device, as far as they are there.
#[derive(Debug)]
pub struct Properties {
    /// Bus, vendor and product, in hexadecimal, with colons between.
    pub hid_id: Option<String>,
    /// The address of the device.
    pub hid_uniq: Option<String>,
    /// The address of the host adapter.
    pub hid_phys: Option<String>,
}

/// What the system knows of one raw device.
#[derive(Debug)]
pub struct Found {
    /// The device node, if the device has one.
    pub path: Option<String>,
    /// The properties of its HID parent, if it has one.
    pub parent: Option<Properties>,
}

/// What the system says has happened to a device.
#[derive(Debug, Clone, Copy, PartialEq, Eq, Structural)]
pub enum Change {
    Add,
    Remove,
    /// Anything else: the device was bound, moved, changed.
    Other,
}

/// The byte that parts the fields of a device id: a colon.
pub const SEPARATOR: u8 = 0x3A;

/// The number of bytes in front of the first `byte` of a text; the length
/// of the text if it holds none.
pub open spec fn position(text: Seq<u8>, byte: u8) -> int
    decreases text.len(),
{
    if text.len() == 0 {
        0
    } else if text[0] == byte {
        0
    } else {
        1 + position(text.drop_first(), byte)
    }
}

/// The value of a hexadecimal digit, in either case.
pub open spec fn digit(byte: u8) -> Option<nat> {
    if 0x30 <= byte <= 0x39 {
        Some((byte - 0x30) as nat)
    } else if 0x41 <= byte <= 0x46 {
        Some((byte - 0x41 + 10) as nat)
    } else if 0x61 <= byte <= 0x66 {
        Some((byte - 0x61 + 10) as nat)
    } else {
        None
    }
}

/// The value of a run of hexadecimal digits, the most significant first.
/// There is none if a byte is no digit.
pub open spec fn hex_value(digits: Seq<u8>) -> Option<nat>
    decreases digits.len(),
{
    if digits.len() == 0 {
        Some(0)
    } else {
        match (hex_value(digits.drop_last()), digit(digits.last())) {
            (Some(value), Some(d)) => Some(16 * value + d),
            _ => None,
        }
    }
}

/// The number up to `max` that a text holds in hexadecimal: an optional
/// plus sign, then at least one digit and nothing else.
pub open spec fn hex_number(text: Seq<u8>, max: nat) -> Option<nat> {
    let digits = if text.len() > 0 && text[0] == 0x2B {
        text.drop_first()
    } else {
        text
    };
    if digits.len() == 0 {
        None
    } else {
        match hex_value(digits) {
            Some(value) => if value <= max {
                Some(value)
            } else {
                None
            },
            None => None,
        }
    }
}

/// The three fields of a device id, if it has three: the text in front of
/// the first colon, the text between the first and the second, and all that
/// follows the second.
pub open spec fn fields(id: Seq<u8>) -> Option<(Seq<u8>, Seq<u8>, Seq<u8>)> {
    let first = position(id, SEPARATOR);
    if first >= id.len() {
        None
    } else {
        let rest = id.skip(first + 1);
        let second = position(rest, SEPARATOR);
        if second >= rest.len() {
            None
        } else {
            Some((id.take(first), rest.take(second), rest.skip(second + 1)))
        }
    }
}

/// The bus that the first field of a device id names.
pub open spec fn bus_of(field: Seq<u8>) -> Bus {
    match hex_number(field, 0xFF) {
        Some(bus) => if bus == BUS_USB {
            Bus::USB
        } else if bus == BUS_BLUETOOTH {
            Bus::BLUETOOTH
        } else {
            Bus::UNKNOWN
        },
        None => Bus::UNKNOWN,
    }
}

/// Whether vendor and product are those of a wand.
pub open spec fn is_wand(vendor_id: u16, product_id: u16) -> bool {
    vendor_id == PSMOVE_VID && (product_id == PSMOVE_PS3_PID || product_id == PSMOVE_PS4_PID)
}

/// The description of the device at a node, read from the properties of its
/// HID parent, or the first thing that is wrong with them.
pub open spec fn described(path: String, parent: Option<Properties>) -> Result<Device, DeviceError> {
    match parent {
        None => Err(DeviceError::NotHid),
        Some(properties) => match properties.hid_id {
            None => Err(DeviceError::NoHidId),
            Some(id) => match fields(encode_utf8(id@)) {
                None => Err(DeviceError::IllegalHidId),
                Some((bus, vendor, product)) => match hex_number(vendor, 0xFFFF) {
                    None => Err(DeviceError::IllegalVendorId),
                    Some(vendor_id) => match hex_number(product, 0xFFFF) {
                        None => Err(DeviceError::IllegalProductId),
                        Some(product_id) => match properties.hid_uniq {
                            None => Err(DeviceError::NoHidUniq),
                            Some(address) => match properties.hid_phys {
                                None => Err(DeviceError::NoHidPhys),
                                Some(controller) => Ok(
                                    Device {
                                        path,
                                        bus: bus_of(bus),
                                        vendor_id: vendor_id as u16,
                                        product_id: product_id as u16,
                                        address,
                                        controller,
                                    },
                                ),
                            },
                        },
                    },
                },
            },
        },
    }
}

proof fn lemma_position(text: Seq<u8>, byte: u8, at: int)
    requires
        0 <= at <= text.len(),
        forall|j: int| 0 <= j < at ==> text[j] != byte,
        at < text.len() ==> text[at] == byte,
    ensures
        position(text, byte) == at,
    decreases at,
{
    if at > 0 {
        let rest = text.drop_first();
        assert forall|j: int| 0 <= j < at - 1 implies rest[j] != byte by {
            assert(rest[j] == text[j + 1]);
        }
        lemma_position(rest, byte, at - 1);
    }
}

proof fn lemma_hex_prefix(digits: Seq<u8>, len: int)
    requires
        0 <= len <= digits.len(),
    ensures
        match hex_value(digits.take(len)) {
            None => hex_value(digits) is None,
            Some(low) => hex_value(digits) matches Some(value) ==> value >= low,
        },
    decreases digits.len() - len,
{
    if len == digits.len() {
        assert(digits.take(len) =~= digits);
    } else {
        assert(digits.drop_last().take(len) =~= digits.take(len));
        lemma_hex_prefix(digits.drop_last(), len);
    }
}

fn find(text: &[u8], byte: u8) -> (at: usize)
    ensures
        at == position(text@, byte),
        at <= text@.len(),
{
    let mut at: usize = 0;
    while at < text.len() && text[at] != byte
        invariant
            at <= text@.len(),
            forall|j: int| 0 <= j < at ==> text@[j] != byte,
        decreases text@.len() - at,
    {
        at += 1;
    }
    proof {
        lemma_position(text@, byte, at as int);
    }
    at
}

fn hex_digit(byte: u8) -> (d: Option<u32>)
    ensures
        match d {
            Some(value) => digit(byte) == Some(value as nat) && value < 16,
            None => digit(byte) is None,
        },
{
    if 0x30 <= byte && byte <= 0x39 {
        Some((byte - 0x30) as u32)
    } else if 0x41 <= byte && byte <= 0x46 {
        Some((byte - 0x41 + 10) as u32)
    } else if 0x61 <= byte && byte <= 0x66 {
        Some((byte - 0x61 + 10) as u32)
    } else {
        None
    }
}

/// Reads a hexadecimal number up to `max`: an optional plus sign, then at
/// least one digit and nothing else.
pub fn parse_hex(text: &[u8], max: u16) -> (r: Option<u16>)
    ensures
        match r {
            Some(value) => hex_number(text@, max as nat) == Some(value as nat),
            None => hex_number(text@, max as nat) is None,
        },
{
    let digits = if text.len() > 0 && text[0] == 0x2B {
        let (_, rest) = text.split_at(1);
        assert(rest@ =~= text@.drop_first());
        rest
    } else {
        text
    };
    if digits.len() == 0 {
        return None;
    }
    let mut value: u32 = 0;
    let mut i: usize = 0;
    while i < digits.len()
        invariant
            i <= digits@.len(),
            digits@.len() > 0,
            digits@ == if text@.len() > 0 && text@[0] == 0x2B {
                text@.drop_first()
            } else {
                text@
            },
            value <= max,
            hex_value(digits@.take(i as int)) == Some(value as nat),
        decreases digits@.len() - i,
    {
        proof {
            assert(digits@.take(i + 1).drop_last() =~= digits@.take(i as int));
            lemma_hex_prefix(digits@, i + 1);
        }
        match hex_digit(digits[i]) {
            Some(d) => {
                let next = 16 * value + d;
                if next > max as u32 {
                    return None;
                }
                value = next;
            },
            None => {
                return None;
            },
        }
        i += 1;
    }
    assert(digits@.take(i as int) =~= digits@);
    Some(value as u16)
}

/// Reads the three fields of a device id.
fn split(id: &[u8]) -> (r: Option<(&[u8], &[u8], &[u8])>)
    ensures
        match r {
            Some((bus, vendor, product)) => fields(id@) == Some((bus@, vendor@, product@)),
            None => fields(id@) is None,
        },
{
    let first = find(id, SEPARATOR);
    if first >= id.len() {
        return None;
    }
    let (bus, tail) = id.split_at(first);
    let (_, rest) = tail.split_at(1);
    assert(bus@ =~= id@.take(first as int));
    assert(rest@ =~= id@.skip(first + 1));
    let second = find(rest, SEPARATOR);
    if second >= rest.len() {
        return None;
    }
    let (vendor, tail) = rest.split_at(second);
    let (_, product) = tail.split_at(1);
    assert(vendor@ =~= rest@.take(second as int));
    assert(product@ =~= rest@.skip(second + 1));
    Some((bus, vendor, product))
}

fn bus(field: &[u8]) -> (b: Bus)
    ensures
        b == bus_of(field@),
{
    match parse_hex(field, 0xFF) {
        Some(bus) => if bus == BUS_USB as u16 {
            Bus::USB
        } else if bus == BUS_BLUETOOTH as u16 {
            Bus::BLUETOOTH
        } else {
            Bus::UNKNOWN
        },
        None => Bus::UNKNOWN,
    }
}

impl Model {
    /// The hardware revision that a product id stands for.
    pub open spec fn of(product_id: u16) -> Option<Model> {
        if product_id == PSMOVE_PS3_PID {
            Some(Model::ZCM1)
        } else if product_id == PSMOVE_PS4_PID {
            Some(Model::ZCM2)
        } else {
            None
        }
    }
}

impl Device {
    /// The hardware revision of the device, if it is a wand.
    pub fn model(&self) -> (m: Option<Model>)
        ensures
            m == if self.vendor_id == PSMOVE_VID {
                Model::of(self.product_id)
            } else {
                None
            },
    {
        if self.vendor_id != PSMOVE_VID {
            None
        } else if self.product_id == PSMOVE_PS3_PID {
            Some(Model::ZCM1)
        } else if self.product_id == PSMOVE_PS4_PID {
            Some(Model::ZCM2)
        } else {
            None
        }
    }
}

/// Whether a device is a wand: it has the vendor id of the wands and the
/// product id of one of the two hardware revisions.
pub fn is_controller(device: &Device) -> (r: bool)
    ensures
        r == is_wand(device.vendor_id, device.product_id),
{
    device.vendor_id == PSMOVE_VID && (device.product_id == PSMOVE_PS3_PID || device.product_id
        == PSMOVE_PS4_PID)
}

/// Reads the description of the device at a node from the properties of its
/// HID parent.
pub fn device(path: String, parent: Option<Properties>) -> (r: Result<Device, DeviceError>)
    ensures
        r == described(path, parent),
{
    let properties = match parent {
        Some(properties) => properties,
        None => {
            return Err(DeviceError::NotHid);
        },
    };
    let Properties { hid_id, hid_uniq, hid_phys } = properties;
    let id = match hid_id {
        Some(id) => id,
        None => {
            return Err(DeviceError::NoHidId);
        },
    };
    let (bus_field, vendor, product) = match split(id.as_str().as_bytes()) {
        Some(parts) => parts,
        None => {
            return Err(DeviceError::IllegalHidId);
        },
    };
    let bus = bus(bus_field);
    let vendor_id = match parse_hex(vendor, 0xFFFF) {
        Some(vendor_id) => vendor_id,
        None => {
            return Err(DeviceError::IllegalVendorId);
        },
    };
    let product_id = match parse_hex(product, 0xFFFF) {
        Some(product_id) => product_id,
        None => {
            return Err(DeviceError::IllegalProductId);
        },
    };
    let address = match hid_uniq {
        Some(address) => address,
        None => {
            return Err(DeviceError::NoHidUniq);
        },
    };
    let controller = match hid_phys {
        Some(controller) => controller,
        None => {
            return Err(DeviceError::NoHidPhys);
        },
    };
    Ok(Device { path, bus, vendor_id, product_id, address, controller })
}

/// The wand that a raw device is, if it is one: it has a device node, its
/// description can be read, and vendor and product are those of a wand.
pub open spec fn wand(found: Found) -> Option<Device> {
    match found.path {
        None => None,
        Some(path) => match described(path, found.parent) {
            Ok(device) => if is_wand(device.vendor_id, device.product_id) {
                Some(device)
            } else {
                None
            },
            Err(_) => None,
        },
    }
}

/// The wands among the raw devices, in the order of the devices.
pub open spec fn wands(found: Seq<Found>) -> Seq<Device>
    decreases found.len(),
{
    if found.len() == 0 {
        Seq::empty()
    } else {
        match wand(found.last()) {
            Some(device) => wands(found.drop_last()).push(device),
            None => wands(found.drop_last()),
        }
    }
}

/// What a change to a raw device means for the wands: a wand has come, the
/// device at a node has gone, or nothing.
pub open spec fn announced(change: Change, found: Found) -> Option<Event> {
    match found.path {
        None => None,
        Some(path) => match change {
            Change::Add => match wand(found) {
                Some(device) => Some(Event::Added(device)),
                None => None,
            },
            Change::Remove => Some(Event::Removed(path)),
            Change::Other => None,
        },
    }
}

fn accept(found: Found) -> (r: Option<Device>)
    ensures
        r == wand(found),
{
    let Found { path, parent } = found;
    match path {
        None => None,
        Some(path) => match device(path, parent) {
            Ok(device) => if is_controller(&device) {
                Some(device)
            } else {
                None
            },
            Err(_) => None,
        },
    }
}

/// Picks the wands out of the devices that are present at the start. A
/// device that is no wand, or whose description cannot be read, is left
/// out.
pub fn monitor(found: Vec<Found>) -> (devices: Vec<Device>)
    ensures
        devices@ == wands(found@),
{
    let mut devices: Vec<Device> = Vec::new();
    let ghost all = found@;
    for raw in it: found.into_iter()
        invariant
            it.seq() == all,
            devices@ == wands(all.take(it.index() as int)),
    {
        proof {
            assert(all.take(it.index() + 1).drop_last() =~= all.take(it.index() as int));
        }
        match accept(raw) {
            Some(device) => {
                devices.push(device);
            },
            None => {},
        }
    }
    proof {
        assert(all.take(all.len() as int) =~= all);
    }
    devices
}

/// Says what a change to a raw device means for the wands.
pub fn event(change: Change, found: Found) -> (r: Option<Event>)
    ensures
        r == announced(change, found),
{
    match change {
        Change::Add => match accept(found) {
            Some(device) => Some(Event::Added(device)),
            None => None,
        },
        Change::Remove => match found.path {
            Some(path) => Some(Event::Removed(path)),
            None => None,
        },
        Change::Other => None,
    }
}

} // verus!

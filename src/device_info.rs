//! Enumeration records: what the driver's device list says of each device.
use vstd::prelude::*;
use vstd::utf8::*;

use crate::error::D3xxError;
use crate::text::{c_text, decode_c_text, is_valid_c_text};

verus! {

/// The number of records that one enumeration snapshot can hold.
pub const MAX_DEVICES: usize = 32;

/// One entry of the driver's device list, as the driver fills it in.
#[derive(Debug, Clone, Copy)]
pub struct RawDeviceNode {
    /// Bit flags for a USB3 or USB2 connection, etc.
    pub flags: u32,
    /// Device type.
    pub kind: u32,
    /// Vendor ID in the high 16 bits, product ID in the low 16 bits.
    pub id: u32,
    /// Location identifier.
    pub location_id: u32,
    /// Serial number as nul-terminated text.
    pub serial_number: [u8; 16],
    /// Description as nul-terminated text.
    pub description: [u8; 32],
    /// Address of the native handle of the session that has the device open;
    /// zero while no session has.
    pub handle: usize,
}

/// What a `DeviceInfo` holds.
pub struct DeviceInfoModel {
    pub index: nat,
    pub flags: u32,
    pub kind: u32,
    pub id: u32,
    pub location_id: u32,
    /// The serial number, as UTF-8 bytes.
    pub serial_number: Seq<u8>,
    /// The description, as UTF-8 bytes.
    pub description: Seq<u8>,
    pub handle: Option<usize>,
}

/// Whether a driver record decodes into an identity record.
pub open spec fn node_decodes(node: RawDeviceNode) -> bool {
    is_valid_c_text(node.serial_number@) && is_valid_c_text(node.description@)
}

/// The identity record that the driver record at `index` of a snapshot stands for.
pub open spec fn node_model(index: nat, node: RawDeviceNode) -> DeviceInfoModel {
    DeviceInfoModel {
        index,
        flags: node.flags,
        kind: node.kind,
        id: node.id,
        location_id: node.location_id,
        serial_number: c_text(node.serial_number@).unwrap(),
        description: c_text(node.description@).unwrap(),
        handle: if node.handle == 0 {
            None
        } else {
            Some(node.handle)
        },
    }
}

/// Holds device information regarding a D3XX device attached to the system.
#[derive(Debug, Clone)]
pub struct DeviceInfo {
    index: usize,
    flags: u32,
    kind: u32,
    id: u32,
    location_id: u32,
    serial_number: String,
    description: String,
    handle: Option<usize>,
}

impl View for DeviceInfo {
    type V = DeviceInfoModel;

    closed spec fn view(&self) -> DeviceInfoModel {
        DeviceInfoModel {
            index: self.index as nat,
            flags: self.flags,
            kind: self.kind,
            id: self.id,
            location_id: self.location_id,
            serial_number: encode_utf8(self.serial_number@),
            description: encode_utf8(self.description@),
            handle: self.handle,
        }
    }
}

impl DeviceInfo {
    /// Builds the identity record of the driver record at `index` of a
    /// snapshot. Text that does not decode is an error (`OtherError`).
    pub fn new(index: usize, node: &RawDeviceNode) -> (r: Result<DeviceInfo, D3xxError>)
        ensures
            r is Ok <==> node_decodes(*node),
            r matches Ok(d) ==> d@ == node_model(index as nat, *node),
            r matches Err(e) ==> e == D3xxError::OtherError,
    {
        let serial_number = decode_c_text(&node.serial_number)?;
        let description = decode_c_text(&node.description)?;
        let handle = if node.handle == 0 {
            None
        } else {
            Some(node.handle)
        };
        Ok(
            DeviceInfo {
                index,
                flags: node.flags,
                kind: node.kind,
                id: node.id,
                location_id: node.location_id,
                serial_number,
                description,
                handle,
            },
        )
    }

    /// Gets the index of this device in the device list it came from. This
    /// value changes when the list is rebuilt!
    pub fn index(&self) -> (r: usize)
        ensures
            r == self@.index,
    {
        self.index
    }

    /// Bit flags for USB3 or USB2 connection, etc.
    pub fn flags(&self) -> (r: u32)
        ensures
            r == self@.flags,
    {
        self.flags
    }

    /// Device type.
    pub fn type_(&self) -> (r: u32)
        ensures
            r == self@.kind,
    {
        self.kind
    }

    /// Vendor ID: the high 16 bits of the combined ID.
    pub fn vendor_id(&self) -> (r: u16)
        ensures
            r == self@.id / 0x10000,
    {
        let id = self.id;
        let v = (id >> 16) & 0xffff;
        assert(v == id / 0x10000) by (bit_vector)
            requires
                v == (id >> 16u32) & 0xffffu32,
        ;
        v as u16
    }

    /// Product ID: the low 16 bits of the combined ID.
    pub fn product_id(&self) -> (r: u16)
        ensures
            r == self@.id % 0x10000,
    {
        let id = self.id;
        let v = id & 0xffff;
        assert(v == id % 0x10000) by (bit_vector)
            requires
                v == id & 0xffffu32,
        ;
        v as u16
    }

    /// Location identifier.
    pub fn location_identifier(&self) -> (r: u32)
        ensures
            r == self@.location_id,
    {
        self.location_id
    }

    /// Device description.
    pub fn description(&self) -> (r: String)
        ensures
            encode_utf8(r@) == self@.description,
    {
        self.description.clone()
    }

    /// Device serial number.
    pub fn serial_number(&self) -> (r: String)
        ensures
            encode_utf8(r@) == self@.serial_number,
    {
        self.serial_number.clone()
    }

    /// Address of the native handle of the session that has the device open,
    /// or `None` if no session has.
    pub fn raw_handle(&self) -> (r: Option<usize>)
        ensures
            r == self@.handle,
    {
        self.handle
    }

    /// Checks if the device is currently in use.
    pub fn is_open(&self) -> (r: bool)
        ensures
            r == self@.handle is Some,
    {
        self.handle.is_some()
    }
}

/// The number of records to make room for, for a device list of `count`
/// devices: more than a snapshot can hold is an error
/// (`InsufficientResources`).
pub fn snapshot_capacity(count: u32) -> (r: Result<usize, D3xxError>)
    ensures
        r is Ok <==> count <= MAX_DEVICES,
        r matches Ok(n) ==> n == count,
        r matches Err(e) ==> e == D3xxError::InsufficientResources,
{
    if count as usize <= MAX_DEVICES {
        Ok(count as usize)
    } else {
        Err(D3xxError::InsufficientResources)
    }
}

/// Projects the first `count` records that the driver filled in into a
/// snapshot of identity records, in the driver's order, each with its
/// position as its index. A count larger than the records at hand is an
/// error (`InsufficientResources`); so is a record whose text does not
/// decode (`OtherError`), for the first such record.
pub fn device_list(nodes: &[RawDeviceNode], count: u32) -> (r: Result<Vec<DeviceInfo>, D3xxError>)
    ensures
        count > nodes@.len() ==> r == Err::<Vec<DeviceInfo>, D3xxError>(D3xxError::InsufficientResources),
        count <= nodes@.len() ==> (r is Ok <==> forall|i: int| 0 <= i < count ==> node_decodes(#[trigger] nodes@[i])),
        count <= nodes@.len() ==> (r matches Err(e) ==> e == D3xxError::OtherError),
        r matches Ok(v) ==> v@.len() == count && forall|i: int|
            0 <= i < count ==> (#[trigger] v@[i])@ == node_model(i as nat, nodes@[i]),
{
    if count as usize > nodes.len() {
        return Err(D3xxError::InsufficientResources);
    }
    let n = count as usize;
    let mut v: Vec<DeviceInfo> = Vec::new();
    let mut i: usize = 0;
    while i < n
        invariant
            n == count,
            n <= nodes@.len(),
            i <= n,
            v@.len() == i,
            forall|j: int| 0 <= j < i ==> node_decodes(#[trigger] nodes@[j]),
            forall|j: int| 0 <= j < i ==> (#[trigger] v@[j])@ == node_model(j as nat, nodes@[j]),
        decreases n - i,
    {
        match DeviceInfo::new(i, &nodes[i]) {
            Ok(d) => {
                v.push(d);
            },
            Err(e) => {
                return Err(e);
            },
        }
        i = i + 1;
    }
    Ok(v)
}

/// The position in a snapshot of the first record that names the native
/// handle `handle`; `DeviceNotFound` if none does.
pub fn position_of_handle(devices: &[DeviceInfo], handle: usize) -> (r: Result<usize, D3xxError>)
    ensures
        r matches Ok(i) ==> i < devices@.len() && devices@[i as int]@.handle == Some(handle) && forall|j: int|
            0 <= j < i ==> (#[trigger] devices@[j])@.handle != Some(handle),
        r is Err <==> forall|j: int| 0 <= j < devices@.len() ==> (#[trigger] devices@[j])@.handle != Some(handle),
        r matches Err(e) ==> e == D3xxError::DeviceNotFound,
{
    let mut i: usize = 0;
    while i < devices.len()
        invariant
            i <= devices@.len(),
            forall|j: int| 0 <= j < i ==> (#[trigger] devices@[j])@.handle != Some(handle),
        decreases devices@.len() - i,
    {
        if devices[i].raw_handle() == Some(handle) {
            return Ok(i);
        }
        i = i + 1;
    }
    Err(D3xxError::DeviceNotFound)
}

} // verus!

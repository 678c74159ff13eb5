//! The standard USB device descriptor.
use vstd::prelude::*;

verus! {

/// Holds information regarding a USB device: the fields of its standard
/// device descriptor, as the driver reports them.
#[derive(Debug, Clone, Copy, Default, PartialEq, Eq, Structural)]
pub struct DeviceDescriptor {
    pub length: u8,
    pub descriptor_type: u8,
    pub usb_version: u16,
    pub device_class: u8,
    pub device_subclass: u8,
    pub device_protocol: u8,
    pub max_packet_size0: u8,
    pub vendor_id: u16,
    pub product_id: u16,
    pub device_release: u16,
    pub manufacturer_index: u8,
    pub product_index: u8,
    pub serial_number_index: u8,
    pub num_configurations: u8,
}

impl DeviceDescriptor {
    /// The USB specification number the device complies to.
    pub fn usb_specification_number(&self) -> (r: usize)
        ensures
            r == self.usb_version,
    {
        self.usb_version as usize
    }

    /// The device class code assigned by the USB organization.
    pub fn class_code(&self) -> (r: usize)
        ensures
            r == self.device_class,
    {
        self.device_class as usize
    }

    /// The device subclass code assigned by the USB organization.
    pub fn subclass_code(&self) -> (r: usize)
        ensures
            r == self.device_subclass,
    {
        self.device_subclass as usize
    }

    /// The device protocol code assigned by the USB organization.
    pub fn protocol_code(&self) -> (r: usize)
        ensures
            r == self.device_protocol,
    {
        self.device_protocol as usize
    }

    /// The maximum packet size for endpoint zero.
    pub fn max_packet_size(&self) -> (r: usize)
        ensures
            r == self.max_packet_size0,
    {
        self.max_packet_size0 as usize
    }

    /// The device vendor ID assigned by the USB organization.
    pub fn vendor_id(&self) -> (r: usize)
        ensures
            r == self.vendor_id,
    {
        self.vendor_id as usize
    }

    /// The device product ID assigned by the manufacturer.
    pub fn product_id(&self) -> (r: usize)
        ensures
            r == self.product_id,
    {
        self.product_id as usize
    }

    /// The device release number.
    pub fn release_number(&self) -> (r: usize)
        ensures
            r == self.device_release,
    {
        self.device_release as usize
    }

    /// The number of possible configurations for the device.
    pub fn num_configurations(&self) -> (r: usize)
        ensures
            r == self.num_configurations,
    {
        self.num_configurations as usize
    }
}

} // verus!

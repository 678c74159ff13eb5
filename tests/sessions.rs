use ft60x_rs::config::{FT60xConfig, CONFIG_LEN};
use ft60x_rs::descriptor::DeviceDescriptor;
use ft60x_rs::error::{translate, D3xxError};
use ft60x_rs::session::{serial_number_request, timeout_from_millis, timeout_millis};

#[test]
fn serial_request_is_nul_terminated() {
    assert_eq!(serial_number_request("000000000001"), Ok(b"000000000001\0".to_vec()));
    assert_eq!(serial_number_request(""), Ok(vec![0]));
}

#[test]
fn serial_with_nul_is_invalid_parameter() {
    assert_eq!(serial_number_request("0000\u{0}1"), Err(D3xxError::InvalidParameter));
    assert_eq!(serial_number_request("\u{0}"), Err(D3xxError::InvalidParameter));
}

#[test]
fn unmatched_serial_reports_device_not_found() {
    // The driver answers an open of an unknown serial number with status 2.
    assert!(serial_number_request("NO-SUCH-DEVICE").is_ok());
    assert_eq!(translate(2), Err(D3xxError::DeviceNotFound));
}

#[test]
fn timeout_round_trip() {
    for (secs, nanos) in [(5u64, 0u32), (0, 1_000_000), (1, 500_000_000), (4_294_967, 295_000_000)] {
        let ms = timeout_millis(secs, nanos).unwrap();
        assert_eq!(timeout_from_millis(ms), (secs, nanos));
    }
    assert_eq!(timeout_millis(5, 0), Ok(5000));
    assert_eq!(timeout_millis(0, 1_999_999), Ok(1));
}

#[test]
fn timeout_from_driver_units() {
    assert_eq!(timeout_from_millis(5000), (5, 0));
    assert_eq!(timeout_from_millis(1234), (1, 234_000_000));
    assert_eq!(timeout_millis(1, 234_000_000), Ok(1234));
}

#[test]
fn timeout_too_long_is_invalid() {
    assert_eq!(timeout_millis(4_294_967, 296_000_000), Err(D3xxError::InvalidParameter));
    assert_eq!(timeout_millis(u64::MAX, 0), Err(D3xxError::InvalidParameter));
}

#[test]
fn config_record_round_trip() {
    let bytes: Vec<u8> = (0..CONFIG_LEN).map(|i| (i * 7) as u8).collect();
    let config = FT60xConfig::parse(&bytes).unwrap();
    assert_eq!(config.encode(), bytes);
    assert!(FT60xConfig::parse(&bytes[..151]).is_none());
    assert!(FT60xConfig::parse(&[0u8; 153]).is_none());
}

#[test]
fn descriptor_fields() {
    let d = DeviceDescriptor {
        length: 18,
        descriptor_type: 1,
        usb_version: 0x0310,
        device_class: 0,
        device_subclass: 0,
        device_protocol: 0,
        max_packet_size0: 9,
        vendor_id: 0x0403,
        product_id: 0x601F,
        device_release: 0x0100,
        manufacturer_index: 1,
        product_index: 2,
        serial_number_index: 3,
        num_configurations: 1,
    };
    assert_eq!(d.usb_specification_number(), 0x0310);
    assert_eq!(d.class_code(), 0);
    assert_eq!(d.subclass_code(), 0);
    assert_eq!(d.protocol_code(), 0);
    assert_eq!(d.max_packet_size(), 9);
    assert_eq!(d.vendor_id(), 0x0403);
    assert_eq!(d.product_id(), 0x601F);
    assert_eq!(d.release_number(), 0x0100);
    assert_eq!(d.num_configurations(), 1);
}

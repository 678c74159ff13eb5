use ft60x_rs::error::D3xxError;
use ft60x_rs::pipe::{Pipe, PipeInfo, PipeType};

const ALL: [Pipe; 8] = [
    Pipe::In0,
    Pipe::In1,
    Pipe::In2,
    Pipe::In3,
    Pipe::Out0,
    Pipe::Out1,
    Pipe::Out2,
    Pipe::Out3,
];

#[test]
fn pipe_directions_exclusive_and_exhaustive() {
    for p in ALL {
        assert!(p.is_read_pipe() != p.is_write_pipe(), "{:?}", p);
        assert_eq!(p.is_read_pipe(), p.id() & 0x80 != 0, "{:?}", p);
    }
}

#[test]
fn pipe_addresses() {
    assert_eq!(Pipe::In0.id(), 0x82);
    assert_eq!(Pipe::In1.id(), 0x83);
    assert_eq!(Pipe::In2.id(), 0x84);
    assert_eq!(Pipe::In3.id(), 0x85);
    assert_eq!(Pipe::Out0.id(), 0x02);
    assert_eq!(Pipe::Out1.id(), 0x03);
    assert_eq!(Pipe::Out2.id(), 0x04);
    assert_eq!(Pipe::Out3.id(), 0x05);
    assert!(Pipe::In0.is_read_pipe());
    assert!(Pipe::Out3.is_write_pipe());
}

#[test]
fn pipe_from_id_round_trip() {
    for p in ALL {
        assert_eq!(Pipe::from_id(p.id()), Some(p));
    }
    assert_eq!(Pipe::from_id(0x80), None);
    assert_eq!(Pipe::from_id(0x01), None);
    assert_eq!(Pipe::from_id(0x86), None);
}

#[test]
fn pipe_type_codes() {
    assert_eq!(PipeType::from_code(0), Some(PipeType::Control));
    assert_eq!(PipeType::from_code(1), Some(PipeType::Isochronous));
    assert_eq!(PipeType::from_code(2), Some(PipeType::Bulk));
    assert_eq!(PipeType::from_code(3), Some(PipeType::Interrupt));
    assert_eq!(PipeType::from_code(4), None);
    assert_eq!(PipeType::from_code(-1), None);
}

#[test]
fn pipe_info_from_native() {
    let info = PipeInfo::from_native(2, 0x82, 1024, 0).unwrap();
    assert_eq!(info.type_(), PipeType::Bulk);
    assert_eq!(info.pipe(), Pipe::In0);
    assert_eq!(info.maximum_packet_size(), 1024);
    assert_eq!(info.interval(), 0);
    let info = PipeInfo::from_native(3, 0x05, 64, 9).unwrap();
    assert_eq!(info.type_(), PipeType::Interrupt);
    assert_eq!(info.pipe(), Pipe::Out3);
    assert_eq!(info.interval(), 9);
}

#[test]
fn pipe_info_rejects_unknown_fields() {
    assert_eq!(PipeInfo::from_native(7, 0x82, 1024, 0), Err(D3xxError::OtherError));
    assert_eq!(PipeInfo::from_native(2, 0x81, 1024, 0), Err(D3xxError::OtherError));
}

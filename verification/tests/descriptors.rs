use block_enum::block_io::{BLOCK_IO_PROTOCOL_REVISION2, BLOCK_IO_PROTOCOL_REVISION3};
use block_enum::device_path::DEVICE_PATH_HEADER_LENGTH;
use block_enum::registry::{
    bind_failure_message, lookup_failure_message, protocol_guid, protocol_name,
};
use block_enum::text::display_string;
use block_enum::{DevicePath, ProtocolKind};

#[test]
fn device_path_length_is_little_endian() {
    let node = DevicePath { node_type: 2, sub_type: 1, length: [0x12, 0x34] };
    assert_eq!(node.len(), 0x3412);
}

#[test]
fn device_path_length_of_bare_header() {
    let node = DevicePath { node_type: 0x7f, sub_type: 0xff, length: [4, 0] };
    assert_eq!(node.len(), 4);
    assert_eq!(node.len(), DEVICE_PATH_HEADER_LENGTH);
}

#[test]
fn device_path_length_high_byte_only() {
    let node = DevicePath { node_type: 4, sub_type: 4, length: [0, 1] };
    assert_eq!(node.len(), 256);
}

#[test]
fn device_path_length_largest() {
    let node = DevicePath { node_type: 1, sub_type: 1, length: [0xff, 0xff] };
    assert_eq!(node.len(), 0xffff);
}

#[test]
fn block_io_revision_constants() {
    assert_eq!(BLOCK_IO_PROTOCOL_REVISION2, 0x0002_0001);
    assert_eq!(BLOCK_IO_PROTOCOL_REVISION3, 0x0002_001f);
}

#[test]
fn block_io_identity_token() {
    let g = protocol_guid(ProtocolKind::BlockIo);
    assert_eq!(g.data1, 0x964e5b21);
    assert_eq!(g.data2, 0x6459);
    assert_eq!(g.data3, 0x11d2);
    assert_eq!(g.data4, [0x8e, 0x39, 0x00, 0xa0, 0xc9, 0x69, 0x72, 0x3b]);
}

#[test]
fn device_path_identity_token() {
    let g = protocol_guid(ProtocolKind::DevicePath);
    assert_eq!(g.data1, 0x09576e91);
    assert_eq!(g.data2, 0x6d3f);
    assert_eq!(g.data3, 0x11d2);
    assert_eq!(g.data4, [0x8e, 0x39, 0x00, 0xa0, 0xc9, 0x69, 0x72, 0x3b]);
}

#[test]
fn device_path_to_text_identity_token() {
    let g = protocol_guid(ProtocolKind::DevicePathToText);
    assert_eq!(g.data1, 0x8b843e20);
    assert_eq!(g.data2, 0x8132);
    assert_eq!(g.data3, 0x4852);
    assert_eq!(g.data4, [0x90, 0xcc, 0x55, 0x1a, 0x4e, 0x4a, 0x7f, 0x1c]);
}

#[test]
fn protocol_names() {
    assert_eq!(protocol_name(ProtocolKind::BlockIo), "BlockIO");
    assert_eq!(protocol_name(ProtocolKind::DevicePath), "DevicePath");
    assert_eq!(protocol_name(ProtocolKind::DevicePathToText), "DevicePathToText");
}

#[test]
fn lookup_failure_names_the_interface() {
    assert_eq!(
        lookup_failure_message(ProtocolKind::BlockIo),
        "Failed to retrieve list of BlockIO handles"
    );
    assert_eq!(
        lookup_failure_message(ProtocolKind::DevicePathToText),
        "Failed to retrieve list of DevicePathToText handles"
    );
}

#[test]
fn bind_failure_names_the_interface() {
    assert_eq!(bind_failure_message(ProtocolKind::BlockIo), "Failed to handle BlockIO protocol");
    assert_eq!(
        bind_failure_message(ProtocolKind::DevicePath),
        "Failed to handle DevicePath protocol"
    );
    assert_eq!(
        bind_failure_message(ProtocolKind::DevicePathToText),
        "Failed to handle DevicePathToText protocol"
    );
}

#[test]
fn display_keeps_plain_text() {
    let units: Vec<u16> = "PciRoot(0x0)/Pci(0x1,0x1)".encode_utf16().collect();
    assert_eq!(display_string(&units), "PciRoot(0x0)/Pci(0x1,0x1)");
}

#[test]
fn display_drops_surrogate_units() {
    let units: Vec<u16> = vec![0x41, 0xD800, 0x42, 0xDFFF, 0x43];
    assert_eq!(display_string(&units), "ABC");
}

#[test]
fn display_keeps_boundary_units() {
    // 0xD7FF is the last unit below the surrogate range, 0xE000 the first
    // above it; both must survive.
    let units: Vec<u16> = vec![0xD7FF, 0xE000];
    let shown = display_string(&units);
    let chars: Vec<char> = shown.chars().collect();
    assert_eq!(chars, vec!['\u{D7FF}', '\u{E000}']);
}

#[test]
fn display_of_empty_path_is_empty() {
    let units: Vec<u16> = Vec::new();
    assert_eq!(display_string(&units), "");
}

//! The device-path record descriptor.
//!
//! A device path is a sequence of self-describing, tightly packed binary
//! nodes.  Each node starts with a four-byte header: a one-byte type tag, a
//! one-byte subtype tag, and a two-byte little-endian length covering the
//! whole node (header plus payload).  The length must be decoded byte-wise,
//! never as a native 16-bit load, because nothing guarantees the node is
//! naturally aligned in firmware memory.

use vstd::prelude::*;

verus! {

/// Size in bytes of a device-path node header: type, subtype, two length
/// bytes.  A well-formed node is never shorter than its own header.
pub const DEVICE_PATH_HEADER_LENGTH: u16 = 4;

/// Header of one device-path node, laid out exactly as the firmware stores
/// it: byte offset 0 is the type tag, offset 1 the subtype tag, offsets 2
/// and 3 the total node length, least significant byte first.  Payload
/// bytes follow immediately after the header, so the real record is packed;
/// this descriptor only ever reads the four header bytes individually.
pub struct DevicePath {
    /// Type tag at byte offset 0.
    pub node_type: u8,
    /// Subtype tag at byte offset 1.
    pub sub_type: u8,
    /// Total node length in bytes at offsets 2 (low) and 3 (high),
    /// stored little-endian and kept as raw bytes so that decoding never
    /// depends on host endianness or on the buffer's alignment.
    pub length: [u8; 2],
}

/// The length value a node's two raw length bytes denote:
/// low byte plus 256 times the high byte.
pub open spec fn spec_node_length(low: u8, high: u8) -> u16 {
    (low + high * 0x100) as u16
}

impl DevicePath {
    /// A node is well formed when its declared length covers at least its
    /// own header.
    pub open spec fn wf(self) -> bool {
        spec_node_length(self.length[0], self.length[1]) >= DEVICE_PATH_HEADER_LENGTH
    }

    /// Decodes the total node length from its two constituent bytes,
    /// little-endian, regardless of how the node was aligned in memory.
    pub fn len(&self) -> (r: u16)
        ensures
            r == spec_node_length(self.length[0], self.length[1]),
    {
        let low: u8 = self.length[0];
        let high: u8 = self.length[1];
        let r: u16 = (low as u16) | ((high as u16) << 8);
        proof {
            let l = low as u16;
            let h = high as u16;
            assert(l | (h << 8) == (l + h * 0x100) as u16) by (bit_vector)
                requires
                    l < 0x100,
                    h < 0x100,
            ;
        }
        r
    }
}

} // verus!

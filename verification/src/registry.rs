//! The protocol registry: interface identity tokens and the diagnostics
//! that accompany a failed lookup or binding.
//!
//! The firmware discovers and binds interfaces by a 128-bit identity
//! token.  The registry keeps the three tokens this system needs, keyed by
//! a small variant set, together with the exact diagnostic text emitted
//! when a discovery or binding call fails.  The firmware calls themselves
//! are made by the driver; every failure is fatal and names the interface
//! involved, so the registry pins those messages down here where they can
//! be specified.

use vstd::prelude::*;
use vstd::string::StringExecFns;

verus! {

/// A 128-bit globally unique interface identity token in the firmware's
/// canonical form: one 32-bit field, two 16-bit fields, and eight trailing
/// bytes, the first three stored little-endian in memory.
#[derive(Clone, Copy)]
pub struct Guid {
    /// First token field, 32 bits.
    pub data1: u32,
    /// Second token field, 16 bits.
    pub data2: u16,
    /// Third token field, 16 bits.
    pub data3: u16,
    /// Final eight token bytes, in memory order.
    pub data4: [u8; 8],
}

/// Opaque firmware-assigned identifier for a discoverable object.  The
/// firmware owns the handle; this system only passes its value back to
/// the firmware during a single enumeration pass.
#[derive(Clone, Copy, PartialEq, Eq, Structural, Debug)]
pub struct Handle {
    /// The raw handle value as the firmware reported it.
    pub id: u64,
}

/// The three interface kinds this system discovers and binds.
#[derive(Clone, Copy, PartialEq, Eq, Structural, Debug)]
pub enum ProtocolKind {
    /// Block storage I/O.
    BlockIo,
    /// Hardware device-path records.
    DevicePath,
    /// Device-path-to-text conversion.
    DevicePathToText,
}

/// The identity token of each interface kind, fixed by the platform
/// specification.
pub open spec fn spec_protocol_guid(kind: ProtocolKind) -> Guid {
    match kind {
        ProtocolKind::BlockIo => Guid {
            data1: 0x964e5b21,
            data2: 0x6459,
            data3: 0x11d2,
            data4: [0x8e, 0x39, 0x00, 0xa0, 0xc9, 0x69, 0x72, 0x3b],
        },
        ProtocolKind::DevicePath => Guid {
            data1: 0x09576e91,
            data2: 0x6d3f,
            data3: 0x11d2,
            data4: [0x8e, 0x39, 0x00, 0xa0, 0xc9, 0x69, 0x72, 0x3b],
        },
        ProtocolKind::DevicePathToText => Guid {
            data1: 0x8b843e20,
            data2: 0x8132,
            data3: 0x4852,
            data4: [0x90, 0xcc, 0x55, 0x1a, 0x4e, 0x4a, 0x7f, 0x1c],
        },
    }
}

/// Looks an interface kind's identity token up.
pub fn protocol_guid(kind: ProtocolKind) -> (g: Guid)
    ensures
        g == spec_protocol_guid(kind),
{
    match kind {
        ProtocolKind::BlockIo => Guid {
            data1: 0x964e5b21,
            data2: 0x6459,
            data3: 0x11d2,
            data4: [0x8e, 0x39, 0x00, 0xa0, 0xc9, 0x69, 0x72, 0x3b],
        },
        ProtocolKind::DevicePath => Guid {
            data1: 0x09576e91,
            data2: 0x6d3f,
            data3: 0x11d2,
            data4: [0x8e, 0x39, 0x00, 0xa0, 0xc9, 0x69, 0x72, 0x3b],
        },
        ProtocolKind::DevicePathToText => Guid {
            data1: 0x8b843e20,
            data2: 0x8132,
            data3: 0x4852,
            data4: [0x90, 0xcc, 0x55, 0x1a, 0x4e, 0x4a, 0x7f, 0x1c],
        },
    }
}

/// The name under which each interface appears in diagnostics.
pub open spec fn spec_protocol_name(kind: ProtocolKind) -> Seq<char> {
    match kind {
        ProtocolKind::BlockIo => "BlockIO"@,
        ProtocolKind::DevicePath => "DevicePath"@,
        ProtocolKind::DevicePathToText => "DevicePathToText"@,
    }
}

/// The interface name used in diagnostics.
pub fn protocol_name(kind: ProtocolKind) -> (r: &'static str)
    ensures
        r@ == spec_protocol_name(kind),
{
    match kind {
        ProtocolKind::BlockIo => "BlockIO",
        ProtocolKind::DevicePath => "DevicePath",
        ProtocolKind::DevicePathToText => "DevicePathToText",
    }
}

/// The diagnostic emitted when handle discovery for an interface fails.
pub open spec fn spec_lookup_failure_message(kind: ProtocolKind) -> Seq<char> {
    "Failed to retrieve list of "@ + spec_protocol_name(kind) + " handles"@
}

/// Builds the diagnostic for a failed handle discovery, naming the
/// interface that was being searched for.
pub fn lookup_failure_message(kind: ProtocolKind) -> (r: String)
    ensures
        r@ == spec_lookup_failure_message(kind),
{
    let mut r = String::from_str("Failed to retrieve list of ");
    r.append(protocol_name(kind));
    r.append(" handles");
    r
}

/// The diagnostic emitted when binding a handle to an interface fails.
pub open spec fn spec_bind_failure_message(kind: ProtocolKind) -> Seq<char> {
    "Failed to handle "@ + spec_protocol_name(kind) + " protocol"@
}

/// Builds the diagnostic for a failed binding, naming the interface the
/// handle was supposed to implement.
pub fn bind_failure_message(kind: ProtocolKind) -> (r: String)
    ensures
        r@ == spec_bind_failure_message(kind),
{
    let mut r = String::from_str("Failed to handle ");
    r.append(protocol_name(kind));
    r.append(" protocol");
    r
}

} // verus!

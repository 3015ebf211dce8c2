//! The block storage I/O interface descriptor.
//!
//! The firmware's record for this interface begins with a 64-bit revision
//! number and a pointer to the media description, followed by four entry
//! points (reset, read-blocks, write-blocks, flush-blocks) that use the
//! platform's 64-bit firmware calling convention with the interface
//! pointer as first argument.  The enumerator never invokes those entry
//! points; it only reads the revision and the media description, which is
//! what this model keeps as plain values.

use vstd::prelude::*;

verus! {

/// Revision value from which the media record carries the lowest aligned
/// block address and the logical-blocks-per-physical-block fields.
pub const BLOCK_IO_PROTOCOL_REVISION2: u64 = 0x20001;

/// Revision value from which the media record also carries the optimal
/// transfer length granularity field.
pub const BLOCK_IO_PROTOCOL_REVISION3: u64 = (2u64 << 16) | 31;

/// Media description of one block storage interface, field for field as
/// the firmware lays it out: identifier, four flags, geometry, and the
/// extra geometry fields of later revisions.
#[derive(Clone, Copy)]
pub struct BlockIOMedia {
    /// Identifier the firmware changes whenever the medium changes.
    pub media_id: u32,
    /// True when the physical medium can be detached from the device.
    pub removable_media: bool,
    /// True when a medium is currently present in the device.
    pub media_present: bool,
    /// True when this interface describes a logical partition.
    pub logical_partition: bool,
    /// True when the medium cannot be written.
    pub read_only: bool,
    /// True when the device caches writes.
    pub write_caching: bool,
    /// Size of one block in bytes.
    pub block_size: u32,
    /// Required alignment of transfer buffers.
    pub io_align: u32,
    /// Address of the last addressable block.
    pub last_block: u64,
    /// First block aligned to a physical block boundary
    /// (meaningful from revision 2 on).
    pub lowest_aligned_lba: u64,
    /// Logical blocks per physical block (meaningful from revision 2 on).
    pub logical_blocks_per_physical_block: u32,
    /// Preferred transfer granularity (meaningful from revision 3 on).
    pub optimal_transfer_length_granularity: u32,
}

/// One handle's block storage I/O interface as the enumerator reads it:
/// the revision number and the media description.  In firmware memory the
/// record holds a reference to the media and the four entry points; this
/// model keeps the media by value because the enumerator only ever reads
/// it during a single enumeration pass.
#[derive(Clone, Copy)]
pub struct BlockIO {
    /// Interface revision; tells which media fields are meaningful.
    pub revision: u64,
    /// The media description the interface points at.
    pub media: BlockIOMedia,
}

} // verus!

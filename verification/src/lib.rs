//! Verified core of a firmware-level storage enumerator.
//!
//! The library models the three firmware interfaces the enumerator touches
//! (block storage I/O, device-path records, and device-path-to-text
//! conversion), the generic handle registry that discovers and binds them,
//! the text resolver that turns a firmware wide-character path into a
//! displayable string, and the enumeration state machine that composes
//! them.  Everything that talks to the firmware itself lives outside this
//! crate; the driver hands each firmware response to the state machine as
//! an event and performs the action the machine asks for next.

pub mod block_io;
pub mod device_path;
pub mod enumerator;
pub mod registry;
pub mod text;

pub use block_io::BlockIO;
pub use block_io::BlockIOMedia;
pub use device_path::DevicePath;
pub use registry::Guid;
pub use registry::Handle;
pub use registry::ProtocolKind;
pub use text::DevicePathToText;

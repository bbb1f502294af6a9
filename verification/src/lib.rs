//! A safety layer over the firmware boot-services dispatch table.
//!
//! The firmware hands the platform a fixed table of entry points for event,
//! priority-level, memory, protocol and image management.  Calling through
//! that table is inherently unsafe; this crate verifies the part of the work
//! that can be verified: which raw values each call must be given, how each
//! raw outcome must be read back, the single-initialization discipline of the
//! table handle, the priority-level guard, the type-erased context encoding,
//! and the size-discovery retry protocol shared by every variable-length
//! query.  The thin shell that performs the actual foreign calls lives
//! outside the library and consults these functions for every decision.

pub mod event;
pub mod fatal;
pub mod guid;
pub mod image;
pub mod memory;
pub mod misc;
pub mod protocol;
pub mod static_ptr;
pub mod status;
pub mod table;
pub mod tpl;

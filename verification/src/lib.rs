//! A safe boundary layer for handing text-transformation results to a caller
//! that manages memory manually, plus the data model for authorization
//! responses.
//!
//! The core problem is the ownership protocol: a transformation either passes
//! its input through unchanged (nothing may be allocated) or produces fresh
//! bytes (which the caller must receive and later give back for exactly one
//! release). The [`ffi_cow`] module holds the tagged result type, [`handle`]
//! the handle-mode exporter, and [`buffer`] the capacity-negotiation protocol
//! for copying a result into caller-owned memory.

pub mod app_keys;
pub mod buffer;
pub mod byte_view;
pub mod ffi_cow;
pub mod handle;
pub mod hierarchy;
pub mod response;
pub mod transform;

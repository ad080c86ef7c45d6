//! Host-side loader for the dual-MCU radio bootloader of a small quadcopter.
//!
//! The crate turns unreliable, packet-sized radio transactions into reliable,
//! ordered bootloader operations:
//!
//! - [`packets`] holds the fixed little-endian codecs for the bootloader
//!   payloads (info, buffer read, flash write status, flash read).
//! - [`Bllink`] drives a half-duplex request/response protocol over a
//!   best-effort per-packet ACK radio, recovering from lost requests, lost
//!   responses and stale responses of earlier transactions.
//! - [`Bootloader`] frames the typed command set addressed to one of the two
//!   target MCUs and validates the responses.
//! - [`CFLoader`] bundles a link with the cached info records of both targets
//!   and runs the flashing and reading engines that tile a firmware image
//!   across buffer and flash pages.
//! - [`model`] states the engine's round-trip law over a byte-level model of
//!   a cooperating device.
//!
//! The radio itself is consumed through the [`Radio`] trait; the crate
//! performs no I/O of its own.

pub mod bllink;
pub mod bootloader;
pub mod cfloader;
mod error;
pub mod model;
pub mod packets;

pub use bllink::Bllink;
pub use bllink::Radio;
pub use bootloader::Bootloader;
pub use cfloader::CFLoader;
pub use cfloader::valid_target;
pub use cfloader::MAX_READ_SIZE;
pub use error::Error;

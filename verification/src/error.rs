//! Error taxonomy of the loader library.

use vstd::prelude::*;

use crate::packets::FlashError;

verus! {

/// Everything that can go wrong between a caller and the device.
///
/// The link retries only within itself; every other layer bubbles these up
/// unmodified.
#[derive(Debug, Clone, PartialEq, Eq)]
pub enum Error {
    /// The radio driver itself failed (USB dropped, enumeration lost).
    /// Surfaced immediately, never retried by the link.
    RadioError(String),
    /// Every retry attempt ran out without an ACK or without a matching
    /// response.
    LinkTimeout,
    /// An info response was shorter than its fixed 22-byte layout.
    MalformedInfo,
    /// A buffer-read or flash-read response was shorter than its header.
    MalformedReadResponse,
    /// A flash-write or flash-status response was shorter than its header.
    MalformedFlashStatus,
    /// A battery-voltage response was shorter than its four value bytes.
    MalformedVbat,
    /// A flash-read response echoed the coordinates of an earlier request.
    StalePacket {
        /// Page number the request asked for.
        requested_page: u16,
        /// Offset within the page the request asked for.
        requested_address: u16,
        /// Page number the response echoed.
        received_page: u16,
        /// Offset within the page the response echoed.
        received_address: u16,
    },
    /// More than the per-call maximum of 25 bytes handed to a buffer load.
    PayloadTooLarge,
    /// An argument was out of range: a match length longer than the request,
    /// an unknown target identifier, or an out-of-range flash page.
    InvalidArgument,
    /// The device reported a failed flash write.
    FlashFailed(FlashError),
    /// The given target's info record could not be fetched at construction.
    NotResponding(u8),
    /// A flash read returned no data before the requested length was reached.
    ShortRead,
}

} // verus!

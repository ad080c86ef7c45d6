//! Packet codecs for the bootloader protocol.
//!
//! Every response frame on the wire is `[0xFF, target, cmd, <payload>]`; the
//! command layer strips the leading `[0xFF, target]` echo and hands the rest
//! (command byte followed by the payload) to the codecs below. All multi-byte
//! fields are little-endian.

use vstd::prelude::*;

use crate::error::Error;

verus! {

/// The little-endian 16-bit value encoded by the byte pair `(lo, hi)`.
pub open spec fn u16_from_le(lo: u8, hi: u8) -> u16 {
    (lo + hi * 256) as u16
}

/// Combine a little-endian byte pair into its 16-bit value.
pub fn u16_le(lo: u8, hi: u8) -> (r: u16)
    ensures
        r == u16_from_le(lo, hi),
{
    lo as u16 + (hi as u16) * 256
}

/// Low byte of the little-endian encoding of `v`.
pub open spec fn le_lo(v: u16) -> u8 {
    (v % 256) as u8
}

/// High byte of the little-endian encoding of `v`.
pub open spec fn le_hi(v: u16) -> u8 {
    (v / 256) as u8
}

/// A little-endian byte pair decodes back to the value it encodes.
pub proof fn lemma_u16_le_round_trip(v: u16)
    ensures
        u16_from_le(le_lo(v), le_hi(v)) == v,
{
}

/// Information record of one target's bootloader.
///
/// Fetched once at discovery and then treated as read-only. A usable record
/// satisfies [`InfoPacket::wf`].
#[derive(Debug, Clone, Copy, PartialEq, Eq)]
pub struct InfoPacket {
    /// Size of flash and buffer pages in bytes.
    pub page_size: u16,
    /// Number of RAM buffer pages available for staging.
    pub n_buff_page: u16,
    /// Total number of flash pages on the target.
    pub n_flash_page: u16,
    /// First flash page available for user firmware; pages below are reserved.
    pub flash_start: u16,
    /// Legacy CPU identifier; preserved but not interpreted.
    pub cpu_id: [u8; 12],
    /// Bootloader protocol version.
    pub version: u8,
}

/// `p` holds exactly the fields encoded in `bytes`, an info response with the
/// leading `[0xFF, target]` echo already stripped (`bytes[0]` is the command
/// byte, which the codec ignores).
pub open spec fn info_fields_match(p: InfoPacket, bytes: Seq<u8>) -> bool {
    &&& p.page_size == u16_from_le(bytes[1], bytes[2])
    &&& p.n_buff_page == u16_from_le(bytes[3], bytes[4])
    &&& p.n_flash_page == u16_from_le(bytes[5], bytes[6])
    &&& p.flash_start == u16_from_le(bytes[7], bytes[8])
    &&& p.cpu_id@ == bytes.subrange(9, 21)
    &&& p.version == bytes[21]
}

/// The 22-byte encoding of `p`: the command byte followed by the fixed
/// little-endian field layout.
pub open spec fn spec_info_encode(p: InfoPacket) -> Seq<u8> {
    Seq::new(
        22,
        |i: int|
            if i == 0 {
                0x10u8
            } else if i == 1 {
                le_lo(p.page_size)
            } else if i == 2 {
                le_hi(p.page_size)
            } else if i == 3 {
                le_lo(p.n_buff_page)
            } else if i == 4 {
                le_hi(p.n_buff_page)
            } else if i == 5 {
                le_lo(p.n_flash_page)
            } else if i == 6 {
                le_hi(p.n_flash_page)
            } else if i == 7 {
                le_lo(p.flash_start)
            } else if i == 8 {
                le_hi(p.flash_start)
            } else if 9 <= i && i < 21 {
                p.cpu_id@[i - 9]
            } else {
                p.version
            },
    )
}

impl InfoPacket {
    /// The invariants a usable info record satisfies: a positive page size, at
    /// least one buffer page, and a firmware area that lies inside flash.
    pub open spec fn wf(&self) -> bool {
        &&& self.page_size >= 1
        &&& self.n_buff_page >= 1
        &&& self.flash_start < self.n_flash_page
    }

    /// Parse an info response (command byte plus 21 payload bytes).
    ///
    /// Fails with [`Error::MalformedInfo`] when fewer than 22 bytes are given.
    pub fn from_bytes(bytes: &[u8]) -> (r: Result<InfoPacket, Error>)
        ensures
            bytes@.len() >= 22 ==> (r matches Ok(p) && info_fields_match(p, bytes@)),
            bytes@.len() < 22 ==> r == Err::<InfoPacket, Error>(Error::MalformedInfo),
    {
        if bytes.len() < 22 {
            return Err(Error::MalformedInfo);
        }
        let cpu_id: [u8; 12] = [
            bytes[9],
            bytes[10],
            bytes[11],
            bytes[12],
            bytes[13],
            bytes[14],
            bytes[15],
            bytes[16],
            bytes[17],
            bytes[18],
            bytes[19],
            bytes[20],
        ];
        proof {
            assert(cpu_id@ =~= bytes@.subrange(9, 21));
        }
        Ok(
            InfoPacket {
                page_size: u16_le(bytes[1], bytes[2]),
                n_buff_page: u16_le(bytes[3], bytes[4]),
                n_flash_page: u16_le(bytes[5], bytes[6]),
                flash_start: u16_le(bytes[7], bytes[8]),
                cpu_id,
                version: bytes[21],
            },
        )
    }

    /// Encode this record as the 22 bytes a bootloader would answer with.
    pub fn to_bytes(&self) -> (r: Vec<u8>)
        ensures
            r@ == spec_info_encode(*self),
    {
        let mut out: Vec<u8> = Vec::new();
        out.push(0x10);
        out.push((self.page_size % 256) as u8);
        out.push((self.page_size / 256) as u8);
        out.push((self.n_buff_page % 256) as u8);
        out.push((self.n_buff_page / 256) as u8);
        out.push((self.n_flash_page % 256) as u8);
        out.push((self.n_flash_page / 256) as u8);
        out.push((self.flash_start % 256) as u8);
        out.push((self.flash_start / 256) as u8);
        out.push(self.cpu_id[0]);
        out.push(self.cpu_id[1]);
        out.push(self.cpu_id[2]);
        out.push(self.cpu_id[3]);
        out.push(self.cpu_id[4]);
        out.push(self.cpu_id[5]);
        out.push(self.cpu_id[6]);
        out.push(self.cpu_id[7]);
        out.push(self.cpu_id[8]);
        out.push(self.cpu_id[9]);
        out.push(self.cpu_id[10]);
        out.push(self.cpu_id[11]);
        out.push(self.version);
        proof {
            assert(out@ =~= spec_info_encode(*self));
        }
        out
    }

    /// Get the page size in bytes.
    pub fn page_size(&self) -> (r: u16)
        ensures
            r == self.page_size,
    {
        self.page_size
    }

    /// Get the number of RAM buffer pages.
    pub fn n_buff_page(&self) -> (r: u16)
        ensures
            r == self.n_buff_page,
    {
        self.n_buff_page
    }

    /// Get the total number of flash pages.
    pub fn n_flash_page(&self) -> (r: u16)
        ensures
            r == self.n_flash_page,
    {
        self.n_flash_page
    }

    /// Get the first flash page available for user firmware.
    pub fn flash_start(&self) -> (r: u16)
        ensures
            r == self.flash_start,
    {
        self.flash_start
    }

    /// Get the bootloader protocol version.
    pub fn version(&self) -> (r: u8)
        ensures
            r == self.version,
    {
        self.version
    }
}

/// Law: the info codec round-trips. Any record parsed back from the encoding
/// of `p` carries the same seven fields (page size, buffer page count, flash
/// page count, flash start, CPU id, version) — and is therefore equal to `p`.
pub proof fn lemma_info_codec_round_trip(p: InfoPacket)
    ensures
        spec_info_encode(p).len() == 22,
        info_fields_match(p, spec_info_encode(p)),
        forall|q: InfoPacket| info_fields_match(q, spec_info_encode(p)) ==> q == p,
{
    let bytes = spec_info_encode(p);
    lemma_u16_le_round_trip(p.page_size);
    lemma_u16_le_round_trip(p.n_buff_page);
    lemma_u16_le_round_trip(p.n_flash_page);
    lemma_u16_le_round_trip(p.flash_start);
    assert(p.cpu_id@ =~= bytes.subrange(9, 21));
    assert forall|q: InfoPacket| info_fields_match(q, bytes) implies q == p by {
        assert(q.cpu_id@ =~= p.cpu_id@);
        assert(q.cpu_id == p.cpu_id);
    }
}

/// Data read back from the staging buffer: the echoed coordinates and the
/// bytes stored there.
#[derive(Debug, Clone, PartialEq, Eq)]
pub struct BufferReadPacket {
    /// The buffer page number that was read.
    pub page: u16,
    /// The offset within the page.
    pub address: u16,
    /// The data read from the buffer.
    pub data: Vec<u8>,
}

/// `p` holds exactly the coordinates and data encoded in `bytes` (command
/// byte, page, offset, data), the layout shared by buffer reads and flash
/// reads.
pub open spec fn read_fields_match(page: u16, address: u16, data: Seq<u8>, bytes: Seq<u8>) -> bool {
    &&& page == u16_from_le(bytes[1], bytes[2])
    &&& address == u16_from_le(bytes[3], bytes[4])
    &&& data == bytes.subrange(5, bytes.len() as int)
}

impl BufferReadPacket {
    /// Parse a buffer-read response (command byte, page, offset, data).
    ///
    /// Fails with [`Error::MalformedReadResponse`] when fewer than 5 bytes are
    /// given.
    pub fn from_bytes(bytes: &[u8]) -> (r: Result<BufferReadPacket, Error>)
        ensures
            bytes@.len() >= 5 ==> (r matches Ok(p) && read_fields_match(
                p.page,
                p.address,
                p.data@,
                bytes@,
            )),
            bytes@.len() < 5 ==> r == Err::<BufferReadPacket, Error>(Error::MalformedReadResponse),
    {
        if bytes.len() < 5 {
            return Err(Error::MalformedReadResponse);
        }
        let data_slice = vstd::slice::slice_subrange(bytes, 5, bytes.len());
        Ok(
            BufferReadPacket {
                page: u16_le(bytes[1], bytes[2]),
                address: u16_le(bytes[3], bytes[4]),
                data: vstd::slice::slice_to_vec(data_slice),
            },
        )
    }
}

/// Status of a flash write: whether the operation has completed and the error
/// code the device reported.
#[derive(Debug, Clone, Copy, PartialEq, Eq)]
pub struct FlashWriteResponse {
    /// Non-zero once the operation has completed.
    pub done: u8,
    /// Error code reported by the device (0 means no error).
    pub error: u8,
}

/// Response to a flash status query; same layout as a flash write response.
pub type FlashStatusResponse = FlashWriteResponse;

/// The error variant encoded by a device error code. Unknown codes collapse
/// to [`FlashError::NoError`] for forward compatibility.
pub open spec fn spec_flash_error(code: u8) -> FlashError {
    if code == 1 {
        FlashError::AddressOutOfBounds
    } else if code == 2 {
        FlashError::FlashEraseFailed
    } else if code == 3 {
        FlashError::FlashProgrammingFailed
    } else {
        FlashError::NoError
    }
}

impl FlashWriteResponse {
    /// Parse a flash-write or flash-status response (command byte, done flag,
    /// error code).
    ///
    /// Fails with [`Error::MalformedFlashStatus`] when fewer than 3 bytes are
    /// given.
    pub fn from_bytes(bytes: &[u8]) -> (r: Result<FlashWriteResponse, Error>)
        ensures
            bytes@.len() >= 3 ==> (r matches Ok(p) && p.done == bytes@[1] && p.error == bytes@[2]),
            bytes@.len() < 3 ==> r == Err::<FlashWriteResponse, Error>(Error::MalformedFlashStatus),
    {
        if bytes.len() < 3 {
            return Err(Error::MalformedFlashStatus);
        }
        Ok(FlashWriteResponse { done: bytes[1], error: bytes[2] })
    }

    /// Whether the flash operation has completed.
    pub fn is_done(&self) -> (r: bool)
        ensures
            r == (self.done != 0),
    {
        self.done != 0
    }

    /// The error code as an error variant.
    pub fn error(&self) -> (r: FlashError)
        ensures
            r == spec_flash_error(self.error),
    {
        FlashError::from_code(self.error)
    }

    /// The success predicate: the operation completed and no error occurred.
    pub open spec fn spec_is_success(&self) -> bool {
        self.done != 0 && spec_flash_error(self.error) == FlashError::NoError
    }

    /// Whether the flash operation completed without error.
    pub fn is_success(&self) -> (r: bool)
        ensures
            r == self.spec_is_success(),
    {
        self.is_done() && matches!(self.error(), FlashError::NoError)
    }
}

/// Data read back from flash memory: the echoed coordinates and the bytes
/// stored there.
#[derive(Debug, Clone, PartialEq, Eq)]
pub struct FlashReadPacket {
    /// The flash page number that was read.
    pub page: u16,
    /// The offset within the page.
    pub address: u16,
    /// The data read from flash memory.
    pub data: Vec<u8>,
}

impl FlashReadPacket {
    /// Parse a flash-read response (command byte, page, offset, data).
    ///
    /// Fails with [`Error::MalformedReadResponse`] when fewer than 5 bytes are
    /// given.
    pub fn from_bytes(bytes: &[u8]) -> (r: Result<FlashReadPacket, Error>)
        ensures
            bytes@.len() >= 5 ==> (r matches Ok(p) && read_fields_match(
                p.page,
                p.address,
                p.data@,
                bytes@,
            )),
            bytes@.len() < 5 ==> r == Err::<FlashReadPacket, Error>(Error::MalformedReadResponse),
    {
        if bytes.len() < 5 {
            return Err(Error::MalformedReadResponse);
        }
        let data_slice = vstd::slice::slice_subrange(bytes, 5, bytes.len());
        Ok(
            FlashReadPacket {
                page: u16_le(bytes[1], bytes[2]),
                address: u16_le(bytes[3], bytes[4]),
                data: vstd::slice::slice_to_vec(data_slice),
            },
        )
    }
}

/// Error conditions a device can report for a flash write.
#[derive(Debug, Clone, Copy, PartialEq, Eq, Structural)]
pub enum FlashError {
    /// No error occurred.
    NoError,
    /// The addresses are outside the authorized boundaries.
    AddressOutOfBounds,
    /// The flash erase operation failed.
    FlashEraseFailed,
    /// The flash programming operation failed.
    FlashProgrammingFailed,
}

impl FlashError {
    /// Decode a device error code; unknown codes collapse to `NoError`.
    pub fn from_code(code: u8) -> (r: FlashError)
        ensures
            r == spec_flash_error(code),
    {
        if code == 1 {
            FlashError::AddressOutOfBounds
        } else if code == 2 {
            FlashError::FlashEraseFailed
        } else if code == 3 {
            FlashError::FlashProgrammingFailed
        } else {
            FlashError::NoError
        }
    }
}

} // verus!

//! The typed command set of one target's bootloader.
//!
//! The platform carries two bootloaders, one per MCU; both speak the same
//! framed command set. Every request frame is `[0xFF, target, cmd, <args>]`
//! with little-endian arguments, and every response echoes at least the
//! three-byte frame head.

use vstd::prelude::*;

use crate::bllink::Bllink;
use crate::bllink::Radio;
use crate::bllink::response_matches;
use crate::error::Error;
use crate::packets::BufferReadPacket;
use crate::packets::FlashReadPacket;
use crate::packets::FlashStatusResponse;
use crate::packets::FlashWriteResponse;
use crate::packets::InfoPacket;
use crate::packets::le_hi;
use crate::packets::le_lo;
use crate::packets::lemma_u16_le_round_trip;

verus! {

/// Target identifier of the flight-controller MCU's bootloader.
pub const TARGET_STM32: u8 = 0xFF;

/// Target identifier of the radio MCU's bootloader.
pub const TARGET_NRF51: u8 = 0xFE;

// Command bytes of the bootloader protocol.
const CMD_GET_INFO: u8 = 0x10;
const CMD_SET_ADDRESS: u8 = 0x11;
const CMD_GET_MAPPING: u8 = 0x12;
const CMD_LOAD_BUFFER: u8 = 0x14;
const CMD_READ_BUFFER: u8 = 0x15;
const CMD_WRITE_FLASH: u8 = 0x18;
const CMD_FLASH_STATUS: u8 = 0x19;
const CMD_READ_FLASH: u8 = 0x1C;
const CMD_RESET_INIT: u8 = 0xFF;
const CMD_RESET: u8 = 0xF0;
const CMD_ALLOFF: u8 = 0x01;
const CMD_SYSOFF: u8 = 0x02;
const CMD_SYSON: u8 = 0x03;
const CMD_GETVBAT: u8 = 0x04;

/// Poll budget for commands the bootloader answers directly (about 10 ms).
pub const SHORT_TIMEOUT_POLLS: u32 = 10;

/// Poll budget for the flash write command; erasing and programming a page
/// can take over a second (about 2 s).
pub const FLASH_TIMEOUT_POLLS: u32 = 2000;

/// The three-byte head every request frame to `target` begins with.
pub open spec fn spec_frame_head(target: u8, cmd: u8) -> Seq<u8> {
    seq![0xFFu8, target, cmd]
}

/// Build the frame `[0xFF, target, cmd]`.
fn frame(target: u8, cmd: u8) -> (r: Vec<u8>)
    ensures
        r@ == spec_frame_head(target, cmd),
{
    let mut out: Vec<u8> = Vec::new();
    out.push(0xFF);
    out.push(target);
    out.push(cmd);
    proof {
        assert(out@ =~= spec_frame_head(target, cmd));
    }
    out
}

/// Append the little-endian encoding of `x`.
fn push_u16_le(out: &mut Vec<u8>, x: u16)
    ensures
        final(out)@ == old(out)@.push(le_lo(x)).push(le_hi(x)),
{
    out.push((x % 256) as u8);
    out.push((x / 256) as u8);
}

/// Append all of `data`.
pub(crate) fn extend_bytes(out: &mut Vec<u8>, data: &[u8])
    ensures
        final(out)@ == old(out)@ + data@,
{
    let mut i: usize = 0;
    while i < data.len()
        invariant
            i <= data@.len(),
            out@ == old(out)@ + data@.subrange(0, i as int),
        decreases data@.len() - i,
    {
        out.push(data[i]);
        proof {
            assert((old(out)@ + data@.subrange(0, i as int)).push(data@[i as int]) =~= old(out)@
                + data@.subrange(0, i + 1));
        }
        i += 1;
    }
    proof {
        assert(data@.subrange(0, data@.len() as int) =~= data@);
    }
}

/// Interface to one target's bootloader state machine.
///
/// The struct itself holds only the target identifier; every command borrows
/// the link it talks through.
pub struct Bootloader {
    /// The target identifier this instance addresses.
    pub target: u8,
}

impl Bootloader {
    /// Create a bootloader interface for the given target identifier.
    pub fn new(target: u8) -> (b: Bootloader)
        ensures
            b.target == target,
    {
        Bootloader { target }
    }

    /// Create a bootloader interface for the flight-controller MCU.
    pub fn stm32() -> (b: Bootloader)
        ensures
            b.target == TARGET_STM32,
    {
        Bootloader::new(TARGET_STM32)
    }

    /// Create a bootloader interface for the radio MCU.
    pub fn nrf51() -> (b: Bootloader)
        ensures
            b.target == TARGET_NRF51,
    {
        Bootloader::new(TARGET_NRF51)
    }

    /// Get the target identifier of this bootloader.
    pub fn target(&self) -> (r: u8)
        ensures
            r == self.target,
    {
        self.target
    }

    /// Fetch the bootloader's info record.
    ///
    /// Fails with [`Error::MalformedInfo`] when the device answers with fewer
    /// bytes than the fixed info layout.
    pub fn get_info<R: Radio>(&self, bllink: &mut Bllink<R>) -> (r: Result<InfoPacket, Error>)
        ensures
            (r matches Err(e) ==> e == Error::LinkTimeout || e is RadioError || e
                == Error::MalformedInfo),
    {
        let command = frame(self.target, CMD_GET_INFO);
        let response = bllink.request(command.as_slice(), SHORT_TIMEOUT_POLLS)?;
        let payload = vstd::slice::slice_subrange(response.as_slice(), 2, response.len());
        InfoPacket::from_bytes(payload)
    }

    /// Tell the bootloader which radio address to use from now on.
    pub fn set_address<R: Radio>(&self, bllink: &mut Bllink<R>, address: &[u8; 5]) -> (r: Result<
        (),
        Error,
    >)
        ensures
            (r matches Err(e) ==> e == Error::LinkTimeout || e is RadioError),
    {
        let mut command = frame(self.target, CMD_SET_ADDRESS);
        extend_bytes(&mut command, address.as_slice());
        bllink.send(command.as_slice())?;
        Ok(())
    }

    /// Fetch the raw flash memory mapping of the target.
    ///
    /// The returned bytes start with the echoed target identifier and command
    /// byte, followed by the mapping data.
    pub fn get_mapping<R: Radio>(&self, bllink: &mut Bllink<R>) -> (r: Result<Vec<u8>, Error>)
        ensures
            (r matches Ok(v) ==> v@.len() >= 2 && v@[0] == self.target && v@[1] == 0x12),
            (r matches Err(e) ==> e == Error::LinkTimeout || e is RadioError),
    {
        let command = frame(self.target, CMD_GET_MAPPING);
        let response = bllink.request(command.as_slice(), SHORT_TIMEOUT_POLLS)?;
        proof {
            assert(response@.subrange(0, 3)[1] == response@[1]);
            assert(response@.subrange(0, 3)[2] == response@[2]);
        }
        let mapping = vstd::slice::slice_subrange(response.as_slice(), 1, response.len());
        Ok(vstd::slice::slice_to_vec(mapping))
    }

    /// Load up to 25 bytes into the staging buffer at `(page, address)`.
    ///
    /// Fails with [`Error::PayloadTooLarge`] — before any radio traffic —
    /// exactly when more than 25 bytes are handed in.
    pub fn load_buffer<R: Radio>(
        &self,
        bllink: &mut Bllink<R>,
        page: u16,
        address: u16,
        data: &[u8],
    ) -> (r: Result<(), Error>)
        ensures
            r == Err::<(), Error>(Error::PayloadTooLarge) <==> data@.len() > 25,
            data@.len() > 25 ==> *final(bllink) == *old(bllink),
            (r matches Err(e) ==> e == Error::PayloadTooLarge || e == Error::LinkTimeout
                || e is RadioError),
    {
        if data.len() > 25 {
            return Err(Error::PayloadTooLarge);
        }
        let mut command = frame(self.target, CMD_LOAD_BUFFER);
        push_u16_le(&mut command, page);
        push_u16_le(&mut command, address);
        extend_bytes(&mut command, data);
        bllink.send(command.as_slice())?;
        Ok(())
    }

    /// Read back the staging buffer at `(page, address)`.
    ///
    /// The returned packet always echoes the requested coordinates, since the
    /// whole request frame must be echoed before a response is accepted.
    pub fn read_buffer<R: Radio>(&self, bllink: &mut Bllink<R>, page: u16, address: u16) -> (r:
        Result<BufferReadPacket, Error>)
        ensures
            (r matches Ok(p) ==> p.page == page && p.address == address),
            (r matches Err(e) ==> e == Error::LinkTimeout || e is RadioError || e
                == Error::MalformedReadResponse),
    {
        let mut command = frame(self.target, CMD_READ_BUFFER);
        push_u16_le(&mut command, page);
        push_u16_le(&mut command, address);
        let response = bllink.request(command.as_slice(), SHORT_TIMEOUT_POLLS)?;
        proof {
            lemma_echoed_coordinates(response@, command@, self.target, CMD_READ_BUFFER, page,
                address);
        }
        let payload = vstd::slice::slice_subrange(response.as_slice(), 2, response.len());
        BufferReadPacket::from_bytes(payload)
    }

    /// Copy `n_pages` staged buffer pages to flash, starting at buffer page
    /// `buffer_page` and flash page `flash_page`, on the target whose info
    /// record is `info`.
    ///
    /// Fails with [`Error::InvalidArgument`] — before any radio traffic —
    /// exactly when the write would overrun the staging buffer or the flash:
    /// `buffer_page + n_pages` must stay within the buffer pages and
    /// `flash_page + n_pages` within the flash pages. Only responses echoing
    /// the three-byte frame head are accepted, so a stale answer to an
    /// earlier command can never stand in for the write status. Succeeds only
    /// when the device reports the write done and free of error; a reported
    /// failure surfaces as [`Error::FlashFailed`].
    pub fn write_flash<R: Radio>(
        &self,
        bllink: &mut Bllink<R>,
        info: &InfoPacket,
        buffer_page: u16,
        flash_page: u16,
        n_pages: u16,
    ) -> (r: Result<FlashWriteResponse, Error>)
        ensures
            r == Err::<FlashWriteResponse, Error>(Error::InvalidArgument) <==> (buffer_page
                + n_pages > info.n_buff_page || flash_page + n_pages > info.n_flash_page),
            (buffer_page + n_pages > info.n_buff_page || flash_page + n_pages
                > info.n_flash_page) ==> *final(bllink) == *old(bllink),
            (r matches Ok(resp) ==> resp.spec_is_success()),
            (r matches Err(e) ==> e == Error::InvalidArgument || e == Error::LinkTimeout
                || e is RadioError || e == Error::MalformedFlashStatus || e is FlashFailed),
    {
        if buffer_page as u32 + n_pages as u32 > info.n_buff_page as u32 || flash_page as u32
            + n_pages as u32 > info.n_flash_page as u32 {
            return Err(Error::InvalidArgument);
        }
        let mut command = frame(self.target, CMD_WRITE_FLASH);
        push_u16_le(&mut command, buffer_page);
        push_u16_le(&mut command, flash_page);
        push_u16_le(&mut command, n_pages);
        let response = bllink.request_match_response(command.as_slice(), 3, FLASH_TIMEOUT_POLLS)?;
        let payload = vstd::slice::slice_subrange(response.as_slice(), 2, response.len());
        let status = FlashWriteResponse::from_bytes(payload)?;
        if status.is_success() {
            Ok(status)
        } else {
            Err(Error::FlashFailed(status.error()))
        }
    }

    /// Query the status of an ongoing or finished flash operation.
    pub fn flash_status<R: Radio>(&self, bllink: &mut Bllink<R>) -> (r: Result<
        FlashStatusResponse,
        Error,
    >)
        ensures
            (r matches Err(e) ==> e == Error::LinkTimeout || e is RadioError || e
                == Error::MalformedFlashStatus),
    {
        let command = frame(self.target, CMD_FLASH_STATUS);
        let response = bllink.request(command.as_slice(), SHORT_TIMEOUT_POLLS)?;
        let payload = vstd::slice::slice_subrange(response.as_slice(), 2, response.len());
        FlashStatusResponse::from_bytes(payload)
    }

    /// Read a chunk of flash memory at `(page, address)`.
    ///
    /// Flash reads accept any response carrying the three-byte frame head and
    /// then validate the echoed coordinates, so a stale read from an earlier
    /// transaction is detected and surfaced as [`Error::StalePacket`] instead
    /// of corrupting the data stream. A returned packet always carries the
    /// requested coordinates.
    pub fn read_flash<R: Radio>(&self, bllink: &mut Bllink<R>, page: u16, address: u16) -> (r:
        Result<FlashReadPacket, Error>)
        ensures
            (r matches Ok(p) ==> p.page == page && p.address == address),
            (r matches Err(Error::StalePacket {
                requested_page,
                requested_address,
                received_page,
                received_address,
            }) ==> requested_page == page && requested_address == address && (received_page != page
                || received_address != address)),
            (r matches Err(e) ==> e == Error::LinkTimeout || e is RadioError || e
                == Error::MalformedReadResponse || e is StalePacket),
    {
        let mut command = frame(self.target, CMD_READ_FLASH);
        push_u16_le(&mut command, page);
        push_u16_le(&mut command, address);
        let response = bllink.request_match_response(command.as_slice(), 3, SHORT_TIMEOUT_POLLS)?;
        let payload = vstd::slice::slice_subrange(response.as_slice(), 2, response.len());
        let packet = FlashReadPacket::from_bytes(payload)?;
        if packet.page != page || packet.address != address {
            return Err(
                Error::StalePacket {
                    requested_page: page,
                    requested_address: address,
                    received_page: packet.page,
                    received_address: packet.address,
                },
            );
        }
        Ok(packet)
    }

    /// Arm the reset sequence. Link errors are tolerated, since the device
    /// may already be on its way out of bootloader mode.
    pub fn reset_init<R: Radio>(&self, bllink: &mut Bllink<R>) -> (r: Result<(), Error>)
        ensures
            r == Ok::<(), Error>(()),
    {
        let command = frame(self.target, CMD_RESET_INIT);
        let _ = bllink.send(command.as_slice());
        Ok(())
    }

    /// Trigger a system reset; fire-and-forget, link errors are swallowed
    /// because the device stops responding mid-transaction by design.
    pub fn reset<R: Radio>(&self, bllink: &mut Bllink<R>) -> (r: Result<(), Error>)
        ensures
            r == Ok::<(), Error>(()),
    {
        let command = frame(self.target, CMD_RESET);
        let _ = bllink.send(command.as_slice());
        Ok(())
    }

    /// Shut down all subsystems; fire-and-forget.
    pub fn all_off<R: Radio>(&self, bllink: &mut Bllink<R>) -> (r: Result<(), Error>)
        ensures
            r == Ok::<(), Error>(()),
    {
        let command = frame(self.target, CMD_ALLOFF);
        let _ = bllink.send(command.as_slice());
        Ok(())
    }

    /// Power off the flight-controller MCU; fire-and-forget.
    pub fn sys_off<R: Radio>(&self, bllink: &mut Bllink<R>) -> (r: Result<(), Error>)
        ensures
            r == Ok::<(), Error>(()),
    {
        let command = frame(self.target, CMD_SYSOFF);
        let _ = bllink.send(command.as_slice());
        Ok(())
    }

    /// Power on the flight-controller MCU; fire-and-forget.
    pub fn sys_on<R: Radio>(&self, bllink: &mut Bllink<R>) -> (r: Result<(), Error>)
        ensures
            r == Ok::<(), Error>(()),
    {
        let command = frame(self.target, CMD_SYSON);
        let _ = bllink.send(command.as_slice());
        Ok(())
    }

    /// Read the battery voltage.
    ///
    /// Returns the four little-endian bytes of the IEEE-754 voltage value the
    /// device reports; interpreting them as a floating-point number is left
    /// to the caller. Fails with [`Error::MalformedVbat`] when the response
    /// carries fewer than four value bytes.
    pub fn get_vbat<R: Radio>(&self, bllink: &mut Bllink<R>) -> (r: Result<[u8; 4], Error>)
        ensures
            (r matches Err(e) ==> e == Error::LinkTimeout || e is RadioError || e
                == Error::MalformedVbat),
    {
        let command = frame(self.target, CMD_GETVBAT);
        let response = bllink.request(command.as_slice(), SHORT_TIMEOUT_POLLS)?;
        if response.len() < 6 {
            return Err(Error::MalformedVbat);
        }
        Ok([response[2], response[3], response[4], response[5]])
    }
}

/// A response that echoes a whole coordinate-carrying request frame
/// (`[0xFF, target, cmd, page, address]`, coordinates little-endian) decodes
/// back to the requested coordinates at the positions the read codecs parse.
proof fn lemma_echoed_coordinates(
    resp: Seq<u8>,
    cmd_frame: Seq<u8>,
    target: u8,
    cmd: u8,
    page: u16,
    address: u16,
)
    requires
        cmd_frame == spec_frame_head(target, cmd).push(le_lo(page)).push(le_hi(page)).push(
            le_lo(address),
        ).push(le_hi(address)),
        response_matches(resp, cmd_frame, cmd_frame.len() as int),
    ensures
        resp.len() >= 7,
        crate::packets::u16_from_le(resp[3], resp[4]) == page,
        crate::packets::u16_from_le(resp[5], resp[6]) == address,
{
    assert(cmd_frame.len() == 7);
    assert(resp.subrange(0, 7)[3] == resp[3]);
    assert(resp.subrange(0, 7)[4] == resp[4]);
    assert(resp.subrange(0, 7)[5] == resp[5]);
    assert(resp.subrange(0, 7)[6] == resp[6]);
    assert(cmd_frame[3] == le_lo(page));
    assert(cmd_frame[4] == le_hi(page));
    assert(cmd_frame[5] == le_lo(address));
    assert(cmd_frame[6] == le_hi(address));
    lemma_u16_le_round_trip(page);
    lemma_u16_le_round_trip(address);
}

} // verus!

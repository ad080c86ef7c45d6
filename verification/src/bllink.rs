//! The bootloader link: a half-duplex, polled request/response protocol built
//! on top of a best-effort per-packet ACK radio.
//!
//! The radio provides per-packet acknowledgement but no transport-level
//! matching; the device may answer a previous request or drop a response.
//! A response is accepted only when its leading bytes echo the request
//! (prefix matching), which disambiguates current-transaction responses from
//! stale ones. After an initial ACK the link keeps polling with a one-byte
//! filler payload to retrieve pending responses without resending the command
//! itself, so that non-idempotent commands are not repeated needlessly.
//!
//! Time is counted in poll cycles: the radio driver paces itself between
//! polls (about a millisecond per cycle), so a budget of `n` polls stands for
//! a timeout of roughly `n` milliseconds.

use vstd::prelude::*;

use crate::error::Error;

verus! {

/// The radio primitive the link drives.
///
/// One call delivers one payload to the device at `(channel, address)` and
/// reports whether the device acknowledged it, together with the piggybacked
/// ACK payload (possibly empty). Nothing is promised of the outcome: the
/// device may be absent, busy, or answering an earlier transaction. On a
/// driver fault (USB dropped, enumeration lost) the call fails with a
/// description of the fault.
///
/// Implementations that poll in a loop should pace themselves (about one
/// millisecond per call) so that a poll budget stands for a wall-clock
/// timeout.
pub trait Radio {
    /// Send `payload` once; return whether it was acknowledged and the
    /// piggybacked response payload.
    fn send_packet(&mut self, channel: u8, address: &[u8; 5], payload: &[u8]) -> Result<
        (bool, Vec<u8>),
        String,
    >;
}

/// The default 5-byte radio address of a device in bootloader mode.
pub open spec fn spec_default_address() -> Seq<u8> {
    seq![0xE7u8, 0xE7u8, 0xE7u8, 0xE7u8, 0xE7u8]
}

/// The default 5-byte radio address of a device in bootloader mode.
pub fn default_address() -> (r: [u8; 5])
    ensures
        r@ == spec_default_address(),
{
    let r: [u8; 5] = [0xE7, 0xE7, 0xE7, 0xE7, 0xE7];
    proof {
        assert(r@ =~= spec_default_address());
    }
    r
}

/// The radio channel the bootloader listens on.
pub const BOOTLOADER_CHANNEL: u8 = 0;

/// How often a whole transaction is retried before the link gives up.
pub const MAX_RETRIES: usize = 10;

/// Poll budget of a plain send when the caller names none (about a second).
pub const DEFAULT_SEND_TIMEOUT_POLLS: u32 = 1000;

/// `resp` starts with the first `n` bytes of `data`: the rule by which a
/// response is recognised as belonging to the current transaction.
pub open spec fn response_matches(resp: Seq<u8>, data: Seq<u8>, n: int) -> bool {
    &&& resp.len() >= n
    &&& resp.subrange(0, n) == data.subrange(0, n)
}

/// Compare the first `n` bytes of a candidate response against the request.
fn prefix_eq(resp: &Vec<u8>, data: &[u8], n: usize) -> (r: bool)
    requires
        n <= data@.len(),
    ensures
        r == response_matches(resp@, data@, n as int),
{
    if resp.len() < n {
        return false;
    }
    let mut i: usize = 0;
    while i < n
        invariant
            i <= n,
            n <= resp@.len(),
            n <= data@.len(),
            forall|k: int| 0 <= k < i ==> resp@[k] == data@[k],
        decreases n - i,
    {
        if resp[i] != data[i] {
            proof {
                assert(resp@.subrange(0, n as int)[i as int] != data@.subrange(0, n as int)[
                    i as int
                ]);
            }
            return false;
        }
        i += 1;
    }
    proof {
        assert(resp@.subrange(0, n as int) =~= data@.subrange(0, n as int));
    }
    true
}

/// A link to the bootloader of one device, exclusively owning its radio
/// session.
///
/// The link is half-duplex: it only ever sends or receives, never both at a
/// time, and requests are strictly serialised.
pub struct Bllink<R> {
    /// The radio session this link drives.
    pub radio: R,
    /// The 5-byte radio address of the device.
    pub address: [u8; 5],
    /// The radio channel in use.
    pub channel: u8,
}

impl<R: Radio> Bllink<R> {
    /// Create a link over an existing radio session.
    ///
    /// When no address is given, the default bootloader address is used.
    pub fn new_with_radio(radio: R, address: Option<[u8; 5]>) -> (l: Bllink<R>)
        ensures
            l.channel == BOOTLOADER_CHANNEL,
            (match address {
                Some(a) => l.address == a,
                None => l.address@ == spec_default_address(),
            }),
    {
        let addr: [u8; 5] = match address {
            Some(a) => a,
            None => default_address(),
        };
        Bllink { radio, address: addr, channel: BOOTLOADER_CHANNEL }
    }

    /// One attempt of a prefix-matched request: send `data` until the device
    /// acknowledges, then poll with the one-byte filler payload until a
    /// response whose first `match_length` bytes echo `data` arrives, all
    /// within a budget of `timeout_polls` radio calls.
    fn try_request_match_response(
        &mut self,
        data: &[u8],
        match_length: usize,
        timeout_polls: u32,
    ) -> (r: Result<Vec<u8>, Error>)
        requires
            match_length <= data@.len(),
        ensures
            (r matches Ok(resp) ==> response_matches(resp@, data@, match_length as int)),
            (r matches Err(e) ==> e == Error::LinkTimeout || e is RadioError),
    {
        let mut polls: u32 = 0;
        let mut answer: Vec<u8> = Vec::new();
        let mut got_ack = false;
        while polls < timeout_polls && !got_ack
            invariant
                match_length <= data@.len(),
            decreases timeout_polls - polls,
        {
            match self.radio.send_packet(self.channel, &self.address, data) {
                Ok((ack, resp)) => {
                    if ack {
                        got_ack = true;
                        answer = resp;
                    }
                },
                Err(msg) => {
                    return Err(Error::RadioError(msg));
                },
            }
            polls += 1;
        }
        if !got_ack {
            return Err(Error::LinkTimeout);
        }
        if prefix_eq(&answer, data, match_length) {
            return Ok(answer);
        }
        let filler: Vec<u8> = vec![0xFF];
        while polls < timeout_polls
            invariant
                match_length <= data@.len(),
            decreases timeout_polls - polls,
        {
            match self.radio.send_packet(self.channel, &self.address, filler.as_slice()) {
                Ok((ack, resp)) => {
                    if ack {
                        answer = resp;
                    }
                },
                Err(msg) => {
                    return Err(Error::RadioError(msg));
                },
            }
            polls += 1;
            if prefix_eq(&answer, data, match_length) {
                return Ok(answer);
            }
        }
        Err(Error::LinkTimeout)
    }

    /// Send `data` as a request and poll for a response whose first
    /// `match_length` bytes echo it; retry the whole transaction up to
    /// [`MAX_RETRIES`] times.
    ///
    /// Only a response that echoes the prefix is ever returned. Partial
    /// matching serves commands whose response shares only the frame head
    /// with the request. Fails with [`Error::InvalidArgument`] — before any
    /// radio traffic — exactly when `match_length` exceeds the request
    /// length, with [`Error::RadioError`] as soon as the driver fails, and
    /// with [`Error::LinkTimeout`] when every attempt ran out.
    pub fn request_match_response(
        &mut self,
        data: &[u8],
        match_length: usize,
        timeout_polls: u32,
    ) -> (r: Result<Vec<u8>, Error>)
        ensures
            (r matches Ok(resp) ==> match_length <= data@.len() && response_matches(
                resp@,
                data@,
                match_length as int,
            )),
            (r matches Err(e) ==> e == Error::LinkTimeout || e == Error::InvalidArgument
                || e is RadioError),
            r == Err::<Vec<u8>, Error>(Error::InvalidArgument) <==> match_length > data@.len(),
            match_length > data@.len() ==> *final(self) == *old(self),
    {
        if match_length > data.len() {
            return Err(Error::InvalidArgument);
        }
        let mut attempt: usize = 0;
        while attempt < MAX_RETRIES
            invariant
                match_length <= data@.len(),
            decreases MAX_RETRIES - attempt,
        {
            match self.try_request_match_response(data, match_length, timeout_polls) {
                Ok(resp) => {
                    return Ok(resp);
                },
                Err(e) => {
                    match e {
                        Error::RadioError(msg) => {
                            return Err(Error::RadioError(msg));
                        },
                        _ => {},
                    }
                },
            }
            attempt += 1;
        }
        Err(Error::LinkTimeout)
    }

    /// Send `data` as a request and poll for a response that starts with the
    /// whole of `data`; retry the transaction up to [`MAX_RETRIES`] times.
    ///
    /// Fails with [`Error::RadioError`] as soon as the driver fails and with
    /// [`Error::LinkTimeout`] when every attempt ran out.
    pub fn request(&mut self, data: &[u8], timeout_polls: u32) -> (r: Result<Vec<u8>, Error>)
        ensures
            (r matches Ok(resp) ==> response_matches(resp@, data@, data@.len() as int)),
            (r matches Err(e) ==> e == Error::LinkTimeout || e is RadioError),
    {
        let n = data.len();
        self.request_match_response(data, n, timeout_polls)
    }

    /// One attempt of a plain send: deliver `data` until the device
    /// acknowledges, within a budget of `timeout_polls` radio calls.
    fn try_send(&mut self, data: &[u8], timeout_polls: u32) -> (r: Result<(), Error>)
        ensures
            (r matches Err(e) ==> e == Error::LinkTimeout || e is RadioError),
    {
        let mut polls: u32 = 0;
        while polls < timeout_polls
            decreases timeout_polls - polls,
        {
            match self.radio.send_packet(self.channel, &self.address, data) {
                Ok((ack, _resp)) => {
                    if ack {
                        return Ok(());
                    }
                },
                Err(msg) => {
                    return Err(Error::RadioError(msg));
                },
            }
            polls += 1;
        }
        Err(Error::LinkTimeout)
    }

    /// Deliver `data` once, succeeding the moment the device acknowledges;
    /// retry up to [`MAX_RETRIES`] times with the given poll budget each.
    ///
    /// Fails with [`Error::RadioError`] as soon as the driver fails and with
    /// [`Error::LinkTimeout`] when every attempt ran out.
    pub fn send_with_timeout(&mut self, data: &[u8], timeout_polls: u32) -> (r: Result<(), Error>)
        ensures
            (r matches Err(e) ==> e == Error::LinkTimeout || e is RadioError),
    {
        let mut attempt: usize = 0;
        while attempt < MAX_RETRIES
            decreases MAX_RETRIES - attempt,
        {
            match self.try_send(data, timeout_polls) {
                Ok(()) => {
                    return Ok(());
                },
                Err(e) => {
                    match e {
                        Error::RadioError(msg) => {
                            return Err(Error::RadioError(msg));
                        },
                        _ => {},
                    }
                },
            }
            attempt += 1;
        }
        Err(Error::LinkTimeout)
    }

    /// Deliver `data` once with the default poll budget; see
    /// [`Self::send_with_timeout`].
    pub fn send(&mut self, data: &[u8]) -> (r: Result<(), Error>)
        ensures
            (r matches Err(e) ==> e == Error::LinkTimeout || e is RadioError),
    {
        self.send_with_timeout(data, DEFAULT_SEND_TIMEOUT_POLLS)
    }
}

} // verus!

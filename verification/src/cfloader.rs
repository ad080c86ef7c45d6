//! The high-level loader: one handle bundling a link with the cached info
//! records of both targets, plus the flashing and reading engines.
//!
//! The engines tile a firmware image across buffer and flash pages: flashing
//! walks the image in chunks of at most the buffer capacity, stages each
//! chunk into the device's RAM buffer in loads of at most 25 bytes, and
//! commits whole pages to flash; reading assembles the output from
//! per-transaction page/offset reads of at most 27 bytes.

use vstd::prelude::*;

use crate::bllink::Bllink;
use crate::bllink::Radio;
use crate::bootloader::Bootloader;
use crate::bootloader::extend_bytes;
use crate::bootloader::TARGET_NRF51;
use crate::bootloader::TARGET_STM32;
use crate::error::Error;
use crate::packets::InfoPacket;

verus! {

/// The two byte values that name a bootloader target.
pub open spec fn valid_target(target: u8) -> bool {
    target == TARGET_STM32 || target == TARGET_NRF51
}

/// Upper bound on the data bytes one flash read transaction can return.
pub const MAX_READ_SIZE: usize = 27;

/// High-level interface for the platform's two bootloaders.
///
/// Construction fetches both targets' info records; afterwards they are
/// treated as read-only, and every operation relies on their invariants
/// ([`CFLoader::wf`]).
pub struct CFLoader<R> {
    /// The link to the device, exclusively owned by this loader.
    pub bllink: Bllink<R>,
    /// Command interface of the radio MCU's bootloader.
    pub nrf51: Bootloader,
    /// Command interface of the flight-controller MCU's bootloader.
    pub stm32: Bootloader,
    /// Cached info record of the radio MCU.
    pub nrf51_info: InfoPacket,
    /// Cached info record of the flight-controller MCU.
    pub stm32_info: InfoPacket,
}

impl<R: Radio> CFLoader<R> {
    /// The loader's invariant: both info records are usable and each command
    /// interface addresses its own target.
    pub open spec fn wf(&self) -> bool {
        &&& self.nrf51_info.wf()
        &&& self.stm32_info.wf()
        &&& self.nrf51.target == TARGET_NRF51
        &&& self.stm32.target == TARGET_STM32
    }

    /// Everything but the link's radio session is as in `other`.
    pub open spec fn config_unchanged(&self, other: &Self) -> bool {
        &&& self.nrf51 == other.nrf51
        &&& self.stm32 == other.stm32
        &&& self.nrf51_info == other.nrf51_info
        &&& self.stm32_info == other.stm32_info
    }

    /// The cached info record of the given target.
    pub open spec fn spec_info_for(&self, target: u8) -> InfoPacket
        recommends
            valid_target(target),
    {
        if target == TARGET_NRF51 {
            self.nrf51_info
        } else {
            self.stm32_info
        }
    }

    /// Create a loader over an established link, fetching both targets' info
    /// records.
    ///
    /// Fails with [`Error::NotResponding`] naming the first target whose info
    /// record could not be fetched or does not satisfy the data invariants.
    pub fn new(bllink: Bllink<R>) -> (r: Result<CFLoader<R>, Error>)
        ensures
            (r matches Ok(l) ==> l.wf()),
            (r matches Err(e) ==> e == Error::NotResponding(TARGET_NRF51) || e
                == Error::NotResponding(TARGET_STM32)),
    {
        let mut bllink = bllink;
        let nrf51 = Bootloader::nrf51();
        let stm32 = Bootloader::stm32();
        let nrf51_info = match nrf51.get_info(&mut bllink) {
            Ok(info) => info,
            Err(_) => {
                return Err(Error::NotResponding(TARGET_NRF51));
            },
        };
        if !info_usable(&nrf51_info) {
            return Err(Error::NotResponding(TARGET_NRF51));
        }
        let stm32_info = match stm32.get_info(&mut bllink) {
            Ok(info) => info,
            Err(_) => {
                return Err(Error::NotResponding(TARGET_STM32));
            },
        };
        if !info_usable(&stm32_info) {
            return Err(Error::NotResponding(TARGET_STM32));
        }
        Ok(CFLoader { bllink, nrf51, stm32, nrf51_info, stm32_info })
    }

    /// Get the cached info record of the radio MCU.
    pub fn nrf51_info(&self) -> (r: &InfoPacket)
        ensures
            *r == self.nrf51_info,
    {
        &self.nrf51_info
    }

    /// Get the cached info record of the flight-controller MCU.
    pub fn stm32_info(&self) -> (r: &InfoPacket)
        ensures
            *r == self.stm32_info,
    {
        &self.stm32_info
    }

    /// Read `length` bytes of flash linearly, starting at byte address
    /// `start_address`.
    ///
    /// When it succeeds, the output holds exactly `length` bytes. A zero
    /// `length` succeeds with empty output before any radio traffic. Reads
    /// that stay within the target's flash capacity are never rejected as out
    /// of range; [`Error::InvalidArgument`] arises only for an unknown target
    /// or an address beyond the last flash page. A transaction that returns
    /// no data aborts the read with [`Error::ShortRead`].
    pub fn read_flash(&mut self, target: u8, start_address: u32, length: u32) -> (r: Result<
        Vec<u8>,
        Error,
    >)
        requires
            old(self).wf(),
        ensures
            final(self).wf(),
            final(self).config_unchanged(old(self)),
            !valid_target(target) ==> r == Err::<Vec<u8>, Error>(Error::InvalidArgument)
                && *final(self) == *old(self),
            (r matches Ok(v) ==> v@.len() == length),
            valid_target(target) && length == 0 ==> (r matches Ok(v) && v@.len() == 0)
                && *final(self) == *old(self),
            valid_target(target) && start_address + length <= old(self).spec_info_for(
                target,
            ).n_flash_page * old(self).spec_info_for(target).page_size ==> r != Err::<
                Vec<u8>,
                Error,
            >(Error::InvalidArgument),
            (valid_target(target) && length >= 1 && start_address as int >= old(
                self,
            ).spec_info_for(target).n_flash_page as int * old(self).spec_info_for(
                target,
            ).page_size as int) ==> r == Err::<Vec<u8>, Error>(Error::InvalidArgument),
            (r matches Err(e) ==> e == Error::InvalidArgument || e == Error::LinkTimeout
                || e is RadioError || e == Error::MalformedReadResponse || e is StalePacket || e
                == Error::ShortRead),
    {
        if target != TARGET_NRF51 && target != TARGET_STM32 {
            return Err(Error::InvalidArgument);
        }
        if length == 0 {
            return Ok(Vec::new());
        }
        let info = if target == TARGET_NRF51 {
            self.nrf51_info
        } else {
            self.stm32_info
        };
        let page_size: u16 = info.page_size;
        let n_flash_page: u16 = info.n_flash_page;
        let ghost capacity: int = n_flash_page as int * page_size as int;
        let mut result: Vec<u8> = Vec::new();
        let mut bytes_read: u32 = 0;
        while bytes_read < length
            invariant
                self.wf(),
                self.config_unchanged(old(self)),
                valid_target(target),
                info == old(self).spec_info_for(target),
                page_size == info.page_size,
                n_flash_page == info.n_flash_page,
                page_size >= 1,
                capacity == n_flash_page as int * page_size as int,
                result@.len() == bytes_read,
                bytes_read <= length,
                bytes_read == 0 || (start_address as int) < capacity,
            decreases length - bytes_read,
        {
            let remaining: u32 = length - bytes_read;
            let read_size: usize = if remaining < 27 {
                remaining as usize
            } else {
                MAX_READ_SIZE
            };
            let current_address: u64 = start_address as u64 + bytes_read as u64;
            let page64: u64 = current_address / (page_size as u64);
            let offset64: u64 = current_address % (page_size as u64);
            if page64 >= n_flash_page as u64 {
                proof {
                    assert(current_address as int >= n_flash_page as int * page_size as int)
                        by (nonlinear_arith)
                        requires
                            page_size as int >= 1,
                            page64 as int == current_address as int / page_size as int,
                            page64 as int >= n_flash_page as int,
                            current_address as int >= 0,
                    ;
                }
                return Err(Error::InvalidArgument);
            }
            proof {
                assert((current_address as int) < capacity) by (nonlinear_arith)
                    requires
                        page_size as int >= 1,
                        page64 as int == current_address as int / page_size as int,
                        (page64 as int) < n_flash_page as int,
                        current_address as int >= 0,
                        capacity == n_flash_page as int * page_size as int,
                ;
            }
            let page: u16 = page64 as u16;
            let offset: u16 = offset64 as u16;
            let packet = if target == TARGET_NRF51 {
                self.nrf51.read_flash(&mut self.bllink, page, offset)?
            } else {
                self.stm32.read_flash(&mut self.bllink, page, offset)?
            };
            let available: usize = packet.data.len();
            let take: usize = if read_size < available {
                read_size
            } else {
                available
            };
            if take == 0 {
                return Err(Error::ShortRead);
            }
            let piece = vstd::slice::slice_subrange(packet.data.as_slice(), 0, take);
            extend_bytes(&mut result, piece);
            bytes_read = bytes_read + take as u32;
        }
        Ok(result)
    }

    /// Read flash of the flight-controller MCU; see [`Self::read_flash`].
    pub fn read_stm32_flash(&mut self, start_address: u32, length: u32) -> (r: Result<
        Vec<u8>,
        Error,
    >)
        requires
            old(self).wf(),
        ensures
            final(self).wf(),
            final(self).config_unchanged(old(self)),
            (r matches Ok(v) ==> v@.len() == length),
            length == 0 ==> (r matches Ok(v) && v@.len() == 0) && *final(self) == *old(self),
            start_address + length <= old(self).stm32_info.n_flash_page * old(
                self,
            ).stm32_info.page_size ==> r != Err::<Vec<u8>, Error>(Error::InvalidArgument),
            (length >= 1 && start_address as int >= old(self).stm32_info.n_flash_page as int * old(
                self,
            ).stm32_info.page_size as int) ==> r == Err::<Vec<u8>, Error>(Error::InvalidArgument),
            (r matches Err(e) ==> e == Error::InvalidArgument || e == Error::LinkTimeout
                || e is RadioError || e == Error::MalformedReadResponse || e is StalePacket || e
                == Error::ShortRead),
    {
        self.read_flash(TARGET_STM32, start_address, length)
    }

    /// Read flash of the radio MCU; see [`Self::read_flash`].
    pub fn read_nrf51_flash(&mut self, start_address: u32, length: u32) -> (r: Result<
        Vec<u8>,
        Error,
    >)
        requires
            old(self).wf(),
        ensures
            final(self).wf(),
            final(self).config_unchanged(old(self)),
            (r matches Ok(v) ==> v@.len() == length),
            length == 0 ==> (r matches Ok(v) && v@.len() == 0) && *final(self) == *old(self),
            start_address + length <= old(self).nrf51_info.n_flash_page * old(
                self,
            ).nrf51_info.page_size ==> r != Err::<Vec<u8>, Error>(Error::InvalidArgument),
            (length >= 1 && start_address as int >= old(self).nrf51_info.n_flash_page as int * old(
                self,
            ).nrf51_info.page_size as int) ==> r == Err::<Vec<u8>, Error>(Error::InvalidArgument),
            (r matches Err(e) ==> e == Error::InvalidArgument || e == Error::LinkTimeout
                || e is RadioError || e == Error::MalformedReadResponse || e is StalePacket || e
                == Error::ShortRead),
    {
        self.read_flash(TARGET_NRF51, start_address, length)
    }

    /// Stage `chunk_len` bytes of `image`, starting at `chunk_start`, into
    /// the device's staging buffer from buffer page 0 onwards.
    ///
    /// Within a page the data is split into loads of at most 25 bytes, the
    /// protocol's per-call cap; the buffer coordinates advance monotonically,
    /// so chunk byte `i` is staged at buffer byte `i`.
    fn load_chunk_to_buffer(
        &mut self,
        target: u8,
        image: &[u8],
        chunk_start: usize,
        chunk_len: usize,
        page_size: u16,
    ) -> (r: Result<(), Error>)
        requires
            old(self).wf(),
            valid_target(target),
            page_size == old(self).spec_info_for(target).page_size,
            page_size >= 1,
            chunk_start + chunk_len <= image@.len(),
            chunk_len <= spec_buffer_capacity(old(self).spec_info_for(target)),
        ensures
            final(self).wf(),
            final(self).config_unchanged(old(self)),
            (r matches Err(e) ==> e == Error::LinkTimeout || e is RadioError),
    {
        let n_buff_page: u16 = if target == TARGET_NRF51 {
            self.nrf51_info.n_buff_page
        } else {
            self.stm32_info.n_buff_page
        };
        let image_len: usize = image.len();
        let mut off: usize = 0;
        while off < chunk_len
            invariant
                self.wf(),
                self.config_unchanged(old(self)),
                valid_target(target),
                page_size == old(self).spec_info_for(target).page_size,
                n_buff_page == old(self).spec_info_for(target).n_buff_page,
                page_size >= 1,
                chunk_start + chunk_len <= image@.len(),
                chunk_start + chunk_len <= image_len,
                chunk_len <= page_size as int * n_buff_page as int,
                off <= chunk_len,
            decreases chunk_len - off,
        {
            let page: usize = off / page_size as usize;
            let page_off: usize = off % page_size as usize;
            proof {
                let offi = off as int;
                let psi = page_size as int;
                let nbi = n_buff_page as int;
                let q = offi / psi;
                let rr = offi % psi;
                vstd::arithmetic::div_mod::lemma_fundamental_div_mod(offi, psi);
                vstd::arithmetic::div_mod::lemma_mod_bound(offi, psi);
                assert(q < nbi) by (nonlinear_arith)
                    requires
                        psi >= 1,
                        offi == psi * q + rr,
                        0 <= rr < psi,
                        offi < psi * nbi,
                ;
                // The flat buffer position of this load equals its position
                // in the chunk: staging acts as one store of the chunk at
                // buffer byte 0, as the device model states.
                assert(q * psi + rr == offi) by (nonlinear_arith)
                    requires
                        offi == psi * q + rr,
                ;
            }
            let rem_page: usize = page_size as usize - page_off;
            let rem_chunk: usize = chunk_len - off;
            let mut load: usize = if rem_chunk < rem_page {
                rem_chunk
            } else {
                rem_page
            };
            if load > 25 {
                load = 25;
            }
            let data = vstd::slice::slice_subrange(image, chunk_start + off, chunk_start + off
                + load);
            let lb = if target == TARGET_NRF51 {
                self.nrf51.load_buffer(&mut self.bllink, page as u16, page_off as u16, data)
            } else {
                self.stm32.load_buffer(&mut self.bllink, page as u16, page_off as u16, data)
            };
            match lb {
                Ok(()) => {},
                Err(e) => {
                    return Err(e);
                },
            }
            off = off + load;
        }
        Ok(())
    }

    /// Flash `image` to the given target, starting at byte address
    /// `start_address`, reporting progress.
    ///
    /// The image is walked in chunks of at most the buffer capacity; each
    /// chunk is staged into the buffer from page 0 and committed with one
    /// flash write of as many pages as the chunk covers. After each chunk the
    /// pair (cumulative bytes written, image length) is appended to
    /// `progress`; on success the appended entries are exactly
    /// [`spec_progress_entries`] of the image length and buffer capacity —
    /// strictly increasing and ending at a full image
    /// ([`lemma_progress_entries_monotone`]).
    ///
    /// Fails with [`Error::InvalidArgument`] — before any radio traffic — for
    /// an unknown target, a start address below the firmware area, or an
    /// image that overruns the flash capacity; a write within bounds is never
    /// rejected that way. A write failure reported by the device surfaces as
    /// [`Error::FlashFailed`].
    pub fn flash_image_with_progress(
        &mut self,
        target: u8,
        start_address: u32,
        image: &[u8],
        progress: &mut Vec<(usize, usize)>,
    ) -> (r: Result<(), Error>)
        requires
            old(self).wf(),
        ensures
            final(self).wf(),
            final(self).config_unchanged(old(self)),
            r == Err::<(), Error>(Error::InvalidArgument) ==> *final(self) == *old(self)
                && final(progress)@ == old(progress)@,
            !valid_target(target) ==> r == Err::<(), Error>(Error::InvalidArgument),
            (valid_target(target) && spec_start_page(start_address, old(self).spec_info_for(target))
                < old(self).spec_info_for(target).flash_start as int) ==> r
                == Err::<(), Error>(Error::InvalidArgument),
            (valid_target(target) && spec_start_page(start_address, old(self).spec_info_for(target))
                >= old(self).spec_info_for(target).flash_start as int && image@.len() == 0) ==> r
                == Ok::<(), Error>(()),
            (valid_target(target) && spec_start_page(start_address, old(self).spec_info_for(target))
                >= old(self).spec_info_for(target).flash_start as int && image@.len() >= 1
                && start_address as int + image@.len() as int > spec_flash_capacity(
                old(self).spec_info_for(target),
            )) ==> r == Err::<(), Error>(Error::InvalidArgument),
            (r matches Ok(u) ==> final(progress)@ == old(progress)@ + spec_progress_entries(
                image@.len() as int,
                spec_buffer_capacity(old(self).spec_info_for(target)),
            )),
            (r matches Err(e) ==> exists|k: int|
                #![trigger spec_progress_entries(
                    image@.len() as int,
                    spec_buffer_capacity(old(self).spec_info_for(target)),
                ).take(k)]
                0 <= k <= spec_chunk_count(
                    image@.len() as int,
                    spec_buffer_capacity(old(self).spec_info_for(target)),
                ) && (image@.len() >= 1 ==> k < spec_chunk_count(
                    image@.len() as int,
                    spec_buffer_capacity(old(self).spec_info_for(target)),
                )) && final(progress)@ == old(progress)@ + spec_progress_entries(
                    image@.len() as int,
                    spec_buffer_capacity(old(self).spec_info_for(target)),
                ).take(k)),
            (valid_target(target) && spec_start_page(start_address, old(self).spec_info_for(target))
                >= old(self).spec_info_for(target).flash_start as int
                && start_address as int + image@.len() as int <= spec_flash_capacity(
                old(self).spec_info_for(target),
            )) ==> r != Err::<(), Error>(Error::InvalidArgument),
            (r matches Err(e) ==> e == Error::InvalidArgument || e == Error::LinkTimeout
                || e is RadioError || e == Error::MalformedFlashStatus || e is FlashFailed),
    {
        proof {
            let nrf_ps = old(self).nrf51_info.page_size as int;
            let nrf_nb = old(self).nrf51_info.n_buff_page as int;
            let stm_ps = old(self).stm32_info.page_size as int;
            let stm_nb = old(self).stm32_info.n_buff_page as int;
            assert(nrf_ps * nrf_nb >= 1 && stm_ps * stm_nb >= 1) by (nonlinear_arith)
                requires
                    nrf_ps >= 1,
                    nrf_nb >= 1,
                    stm_ps >= 1,
                    stm_nb >= 1,
            ;
            lemma_chunk_count_bounds(
                image@.len() as int,
                spec_buffer_capacity(old(self).spec_info_for(target)),
            );
            assert(old(progress)@ + spec_progress_entries(
                image@.len() as int,
                spec_buffer_capacity(old(self).spec_info_for(target)),
            ).take(0) =~= old(progress)@);
        }
        if target != TARGET_NRF51 && target != TARGET_STM32 {
            return Err(Error::InvalidArgument);
        }
        let info = if target == TARGET_NRF51 {
            self.nrf51_info
        } else {
            self.stm32_info
        };
        let page_size: u16 = info.page_size;
        let n_buff_page: u16 = info.n_buff_page;
        let n_flash_page: u16 = info.n_flash_page;
        let flash_start: u16 = info.flash_start;
        let start_page: u64 = start_address as u64 / page_size as u64;
        if start_page < flash_start as u64 {
            return Err(Error::InvalidArgument);
        }
        let total: usize = image.len();
        if total == 0 {
            proof {
                let cap = spec_buffer_capacity(info);
                assert(cap >= 1) by (nonlinear_arith)
                    requires
                        cap == page_size as int * n_buff_page as int,
                        page_size as int >= 1,
                        n_buff_page as int >= 1,
                ;
                lemma_progress_entries_monotone(0, cap);
                assert(old(progress)@ + spec_progress_entries(0, cap) =~= old(progress)@);
            }
            return Ok(());
        }
        proof {
            assert(page_size as int * n_buff_page as int <= 0xFFFF * 0xFFFF) by (nonlinear_arith)
                requires
                    page_size as int <= 0xFFFF,
                    n_buff_page as int <= 0xFFFF,
                    page_size as int >= 0,
                    n_buff_page as int >= 0,
            ;
            assert(page_size as int * n_flash_page as int <= 0xFFFF * 0xFFFF) by (nonlinear_arith)
                requires
                    page_size as int <= 0xFFFF,
                    n_flash_page as int <= 0xFFFF,
                    page_size as int >= 0,
                    n_flash_page as int >= 0,
            ;
        }
        proof {
            assert(page_size as int * n_buff_page as int >= 1) by (nonlinear_arith)
                requires
                    page_size as int >= 1,
                    n_buff_page as int >= 1,
            ;
        }
        let buffer_capacity: usize = page_size as usize * n_buff_page as usize;
        let capacity64: u64 = page_size as u64 * n_flash_page as u64;
        if total as u64 > capacity64 {
            return Err(Error::InvalidArgument);
        }
        if start_address as u64 > capacity64 - total as u64 {
            return Err(Error::InvalidArgument);
        }
        let ghost cap = buffer_capacity as int;
        let mut bytes_written: usize = 0;
        let ghost mut chunks_done: int = 0;
        proof {
            assert(progress@ =~= old(progress)@ + spec_progress_entries(total as int, cap).take(
                0,
            ));
        }
        while bytes_written < total
            invariant
                self.wf(),
                self.config_unchanged(old(self)),
                valid_target(target),
                info == old(self).spec_info_for(target),
                page_size == info.page_size,
                n_buff_page == info.n_buff_page,
                n_flash_page == info.n_flash_page,
                page_size >= 1,
                n_buff_page >= 1,
                total == image@.len(),
                spec_start_page(start_address, info) >= info.flash_start as int,
                buffer_capacity as int == spec_buffer_capacity(info),
                cap == buffer_capacity as int,
                buffer_capacity >= 1,
                buffer_capacity <= 0xFFFF * 0xFFFF,
                capacity64 as int == spec_flash_capacity(info),
                start_address as int + total as int <= capacity64 as int,
                chunks_done >= 0,
                bytes_written as int == vstd::math::min(chunks_done * cap, total as int),
                chunks_done == 0 || (chunks_done - 1) * cap < total as int,
                bytes_written <= total,
                progress@ == old(progress)@ + spec_progress_entries(total as int, cap).take(
                    chunks_done,
                ),
            decreases total - bytes_written,
        {
            proof {
                let t = total as int;
                let n = spec_chunk_count(t, cap);
                vstd::arithmetic::div_mod::lemma_fundamental_div_mod(t + cap - 1, cap);
                vstd::arithmetic::div_mod::lemma_mod_bound(t + cap - 1, cap);
                assert(chunks_done < n) by (nonlinear_arith)
                    requires
                        cap >= 1,
                        chunks_done >= 0,
                        chunks_done * cap < t,
                        t + cap - 1 == cap * n + ((t + cap - 1) % cap),
                        0 <= (t + cap - 1) % cap < cap,
                ;
            }
            let remaining: usize = total - bytes_written;
            let chunk_size: usize = if remaining < buffer_capacity {
                remaining
            } else {
                buffer_capacity
            };
            let current_address: u64 = start_address as u64 + bytes_written as u64;
            let current_page64: u64 = current_address / page_size as u64;
            let pages_needed: usize = (chunk_size + page_size as usize - 1) / page_size as usize;
            proof {
                let a = current_address as int;
                let psi = page_size as int;
                let c = chunk_size as int;
                let nn = n_flash_page as int;
                let nbi = n_buff_page as int;
                let q = a / psi;
                let r1 = a % psi;
                let m = (c + psi - 1) / psi;
                let r2 = (c + psi - 1) % psi;
                vstd::arithmetic::div_mod::lemma_fundamental_div_mod(a, psi);
                vstd::arithmetic::div_mod::lemma_mod_bound(a, psi);
                vstd::arithmetic::div_mod::lemma_fundamental_div_mod(c + psi - 1, psi);
                vstd::arithmetic::div_mod::lemma_mod_bound(c + psi - 1, psi);
                assert(q >= 0 && m >= 1 && q + m <= nn && m <= nbi) by (nonlinear_arith)
                    requires
                        psi >= 1,
                        1 <= c,
                        c <= psi * nbi,
                        a == psi * q + r1,
                        0 <= r1 < psi,
                        c + psi - 1 == psi * m + r2,
                        0 <= r2 < psi,
                        a >= 0,
                        a + c <= psi * nn,
                ;
            }
            let current_page: u16 = current_page64 as u16;
            match self.load_chunk_to_buffer(target, image, bytes_written, chunk_size, page_size) {
                Ok(()) => {},
                Err(e) => {
                    proof {
                        assert(progress@ == old(progress)@ + spec_progress_entries(
                            total as int,
                            cap,
                        ).take(chunks_done));
                    }
                    return Err(e);
                },
            }
            let write_res = if target == TARGET_NRF51 {
                self.nrf51.write_flash(&mut self.bllink, &info, 0, current_page, pages_needed
                    as u16)
            } else {
                self.stm32.write_flash(&mut self.bllink, &info, 0, current_page, pages_needed
                    as u16)
            };
            match write_res {
                Ok(_) => {},
                Err(e) => {
                    proof {
                        assert(progress@ == old(progress)@ + spec_progress_entries(
                            total as int,
                            cap,
                        ).take(chunks_done));
                    }
                    return Err(e);
                },
            }
            bytes_written = bytes_written + chunk_size;
            progress.push((bytes_written, total));
            proof {
                let t = total as int;
                let k = chunks_done;
                assert((k + 1) * cap == k * cap + cap) by (nonlinear_arith);
                assert(spec_progress_entries(t, cap)[k] == (bytes_written, total));
                assert(spec_progress_entries(t, cap).take(k + 1) =~= spec_progress_entries(
                    t,
                    cap,
                ).take(k).push(spec_progress_entries(t, cap)[k]));
                chunks_done = chunks_done + 1;
            }
        }
        proof {
            let t = total as int;
            let k = chunks_done;
            let n = spec_chunk_count(t, cap);
            assert(k >= 1);
            assert(k * cap >= t);
            let r = t + cap - 1 - cap * k;
            assert(0 <= r < cap) by (nonlinear_arith)
                requires
                    cap >= 1,
                    k >= 1,
                    r == t + cap - 1 - cap * k,
                    k * cap >= t,
                    (k - 1) * cap < t,
            ;
            assert(cap * k == k * cap) by (nonlinear_arith);
            vstd::arithmetic::div_mod::lemma_fundamental_div_mod_converse(t + cap - 1, cap, k, r);
            assert(n == k);
            assert(spec_progress_entries(t, cap).take(k) =~= spec_progress_entries(t, cap));
        }
        Ok(())
    }

    /// Flash `image` to the given target without progress reporting; see
    /// [`Self::flash_image_with_progress`].
    pub fn flash_image(&mut self, target: u8, start_address: u32, image: &[u8]) -> (r: Result<
        (),
        Error,
    >)
        requires
            old(self).wf(),
        ensures
            final(self).wf(),
            final(self).config_unchanged(old(self)),
            r == Err::<(), Error>(Error::InvalidArgument) ==> *final(self) == *old(self),
            !valid_target(target) ==> r == Err::<(), Error>(Error::InvalidArgument),
            (valid_target(target) && spec_start_page(start_address, old(self).spec_info_for(target))
                < old(self).spec_info_for(target).flash_start as int) ==> r
                == Err::<(), Error>(Error::InvalidArgument),
            (valid_target(target) && spec_start_page(start_address, old(self).spec_info_for(target))
                >= old(self).spec_info_for(target).flash_start as int && image@.len() == 0) ==> r
                == Ok::<(), Error>(()),
            (valid_target(target) && spec_start_page(start_address, old(self).spec_info_for(target))
                >= old(self).spec_info_for(target).flash_start as int && image@.len() >= 1
                && start_address as int + image@.len() as int > spec_flash_capacity(
                old(self).spec_info_for(target),
            )) ==> r == Err::<(), Error>(Error::InvalidArgument),
            (valid_target(target) && spec_start_page(start_address, old(self).spec_info_for(target))
                >= old(self).spec_info_for(target).flash_start as int
                && start_address as int + image@.len() as int <= spec_flash_capacity(
                old(self).spec_info_for(target),
            )) ==> r != Err::<(), Error>(Error::InvalidArgument),
            (r matches Err(e) ==> e == Error::InvalidArgument || e == Error::LinkTimeout
                || e is RadioError || e == Error::MalformedFlashStatus || e is FlashFailed),
    {
        let mut progress: Vec<(usize, usize)> = Vec::new();
        self.flash_image_with_progress(target, start_address, image, &mut progress)
    }

    /// Flash the flight-controller MCU with progress reporting; see
    /// [`Self::flash_image_with_progress`].
    pub fn flash_stm32_with_progress(
        &mut self,
        start_address: u32,
        image: &[u8],
        progress: &mut Vec<(usize, usize)>,
    ) -> (r: Result<(), Error>)
        requires
            old(self).wf(),
        ensures
            final(self).wf(),
            final(self).config_unchanged(old(self)),
            r == Err::<(), Error>(Error::InvalidArgument) ==> *final(self) == *old(self)
                && final(progress)@ == old(progress)@,
            spec_start_page(start_address, old(self).stm32_info) < old(
                self,
            ).stm32_info.flash_start as int ==> r == Err::<(), Error>(Error::InvalidArgument),
            (spec_start_page(start_address, old(self).stm32_info) >= old(
                self,
            ).stm32_info.flash_start as int && image@.len() == 0) ==> r == Ok::<(), Error>(()),
            (spec_start_page(start_address, old(self).stm32_info) >= old(
                self,
            ).stm32_info.flash_start as int && image@.len() >= 1 && start_address as int
                + image@.len() as int > spec_flash_capacity(old(self).stm32_info)) ==> r == Err::<
                (),
                Error,
            >(Error::InvalidArgument),
            (spec_start_page(start_address, old(self).stm32_info) >= old(
                self,
            ).stm32_info.flash_start as int && start_address as int + image@.len() as int
                <= spec_flash_capacity(old(self).stm32_info)) ==> r != Err::<(), Error>(
                Error::InvalidArgument,
            ),
            (r matches Ok(u) ==> final(progress)@ == old(progress)@ + spec_progress_entries(
                image@.len() as int,
                spec_buffer_capacity(old(self).stm32_info),
            )),
            (r matches Err(e) ==> e == Error::InvalidArgument || e == Error::LinkTimeout
                || e is RadioError || e == Error::MalformedFlashStatus || e is FlashFailed),
    {
        self.flash_image_with_progress(TARGET_STM32, start_address, image, progress)
    }

    /// Flash the radio MCU with progress reporting; see
    /// [`Self::flash_image_with_progress`].
    pub fn flash_nrf51_with_progress(
        &mut self,
        start_address: u32,
        image: &[u8],
        progress: &mut Vec<(usize, usize)>,
    ) -> (r: Result<(), Error>)
        requires
            old(self).wf(),
        ensures
            final(self).wf(),
            final(self).config_unchanged(old(self)),
            r == Err::<(), Error>(Error::InvalidArgument) ==> *final(self) == *old(self)
                && final(progress)@ == old(progress)@,
            spec_start_page(start_address, old(self).nrf51_info) < old(
                self,
            ).nrf51_info.flash_start as int ==> r == Err::<(), Error>(Error::InvalidArgument),
            (spec_start_page(start_address, old(self).nrf51_info) >= old(
                self,
            ).nrf51_info.flash_start as int && image@.len() == 0) ==> r == Ok::<(), Error>(()),
            (spec_start_page(start_address, old(self).nrf51_info) >= old(
                self,
            ).nrf51_info.flash_start as int && image@.len() >= 1 && start_address as int
                + image@.len() as int > spec_flash_capacity(old(self).nrf51_info)) ==> r == Err::<
                (),
                Error,
            >(Error::InvalidArgument),
            (spec_start_page(start_address, old(self).nrf51_info) >= old(
                self,
            ).nrf51_info.flash_start as int && start_address as int + image@.len() as int
                <= spec_flash_capacity(old(self).nrf51_info)) ==> r != Err::<(), Error>(
                Error::InvalidArgument,
            ),
            (r matches Ok(u) ==> final(progress)@ == old(progress)@ + spec_progress_entries(
                image@.len() as int,
                spec_buffer_capacity(old(self).nrf51_info),
            )),
            (r matches Err(e) ==> e == Error::InvalidArgument || e == Error::LinkTimeout
                || e is RadioError || e == Error::MalformedFlashStatus || e is FlashFailed),
    {
        self.flash_image_with_progress(TARGET_NRF51, start_address, image, progress)
    }

    /// Flash the flight-controller MCU; see [`Self::flash_image`].
    pub fn flash_stm32(&mut self, start_address: u32, image: &[u8]) -> (r: Result<(), Error>)
        requires
            old(self).wf(),
        ensures
            final(self).wf(),
            final(self).config_unchanged(old(self)),
            r == Err::<(), Error>(Error::InvalidArgument) ==> *final(self) == *old(self),
            spec_start_page(start_address, old(self).stm32_info) < old(
                self,
            ).stm32_info.flash_start as int ==> r == Err::<(), Error>(Error::InvalidArgument),
            (spec_start_page(start_address, old(self).stm32_info) >= old(
                self,
            ).stm32_info.flash_start as int && image@.len() == 0) ==> r == Ok::<(), Error>(()),
            (spec_start_page(start_address, old(self).stm32_info) >= old(
                self,
            ).stm32_info.flash_start as int && image@.len() >= 1 && start_address as int
                + image@.len() as int > spec_flash_capacity(old(self).stm32_info)) ==> r == Err::<
                (),
                Error,
            >(Error::InvalidArgument),
            (spec_start_page(start_address, old(self).stm32_info) >= old(
                self,
            ).stm32_info.flash_start as int && start_address as int + image@.len() as int
                <= spec_flash_capacity(old(self).stm32_info)) ==> r != Err::<(), Error>(
                Error::InvalidArgument,
            ),
            (r matches Err(e) ==> e == Error::InvalidArgument || e == Error::LinkTimeout
                || e is RadioError || e == Error::MalformedFlashStatus || e is FlashFailed),
    {
        self.flash_image(TARGET_STM32, start_address, image)
    }

    /// Flash the radio MCU; see [`Self::flash_image`].
    pub fn flash_nrf51(&mut self, start_address: u32, image: &[u8]) -> (r: Result<(), Error>)
        requires
            old(self).wf(),
        ensures
            final(self).wf(),
            final(self).config_unchanged(old(self)),
            r == Err::<(), Error>(Error::InvalidArgument) ==> *final(self) == *old(self),
            spec_start_page(start_address, old(self).nrf51_info) < old(
                self,
            ).nrf51_info.flash_start as int ==> r == Err::<(), Error>(Error::InvalidArgument),
            (spec_start_page(start_address, old(self).nrf51_info) >= old(
                self,
            ).nrf51_info.flash_start as int && image@.len() == 0) ==> r == Ok::<(), Error>(()),
            (spec_start_page(start_address, old(self).nrf51_info) >= old(
                self,
            ).nrf51_info.flash_start as int && image@.len() >= 1 && start_address as int
                + image@.len() as int > spec_flash_capacity(old(self).nrf51_info)) ==> r == Err::<
                (),
                Error,
            >(Error::InvalidArgument),
            (spec_start_page(start_address, old(self).nrf51_info) >= old(
                self,
            ).nrf51_info.flash_start as int && start_address as int + image@.len() as int
                <= spec_flash_capacity(old(self).nrf51_info)) ==> r != Err::<(), Error>(
                Error::InvalidArgument,
            ),
            (r matches Err(e) ==> e == Error::InvalidArgument || e == Error::LinkTimeout
                || e is RadioError || e == Error::MalformedFlashStatus || e is FlashFailed),
    {
        self.flash_image(TARGET_NRF51, start_address, image)
    }

    /// Reset the device out of bootloader mode into its firmware.
    ///
    /// Arms the reset sequence on the radio MCU, then triggers the warm boot.
    /// Link errors are swallowed, since the device stops answering on its way
    /// out; the link should be considered defunct afterwards.
    pub fn reset_to_firmware(&mut self) -> (r: Result<(), Error>)
        requires
            old(self).wf(),
        ensures
            final(self).wf(),
            final(self).config_unchanged(old(self)),
            r == Ok::<(), Error>(()),
    {
        let _ = self.nrf51.reset_init(&mut self.bllink);
        let reset_command: Vec<u8> = vec![0xFF, TARGET_NRF51, 0xF0, 0x01];
        let _ = self.bllink.send(reset_command.as_slice());
        Ok(())
    }
}

/// The flash page a byte address falls in.
pub open spec fn spec_start_page(start_address: u32, info: InfoPacket) -> int
    recommends
        info.page_size >= 1,
{
    start_address as int / info.page_size as int
}

/// Bytes the staging buffer of a target holds: page size times buffer pages.
pub open spec fn spec_buffer_capacity(info: InfoPacket) -> int {
    info.page_size as int * info.n_buff_page as int
}

/// Total flash bytes of a target: page size times flash pages.
pub open spec fn spec_flash_capacity(info: InfoPacket) -> int {
    info.page_size as int * info.n_flash_page as int
}

/// Number of chunks the flashing engine needs for `len` bytes with a staging
/// buffer of `cap` bytes.
pub open spec fn spec_chunk_count(len: int, cap: int) -> int
    recommends
        cap >= 1,
{
    (len + cap - 1) / cap
}

/// The progress entry reported after chunk `k`: cumulative bytes written and
/// the total image length.
pub open spec fn spec_progress_entry(len: int, cap: int, k: int) -> (usize, usize)
    recommends
        0 <= len <= usize::MAX,
        cap >= 1,
{
    (vstd::math::min((k + 1) * cap, len) as usize, len as usize)
}

/// All progress entries of a successful run of the flashing engine over an
/// image of `len` bytes.
pub open spec fn spec_progress_entries(len: int, cap: int) -> Seq<(usize, usize)>
    recommends
        0 <= len <= usize::MAX,
        cap >= 1,
{
    Seq::new(spec_chunk_count(len, cap) as nat, |k: int| spec_progress_entry(len, cap, k))
}

/// The chunk count is never negative, and a non-empty image needs at least
/// one chunk.
pub proof fn lemma_chunk_count_bounds(len: int, cap: int)
    requires
        cap >= 1,
        len >= 0,
    ensures
        spec_chunk_count(len, cap) >= 0,
        len >= 1 ==> spec_chunk_count(len, cap) >= 1,
{
    let n = spec_chunk_count(len, cap);
    vstd::arithmetic::div_mod::lemma_fundamental_div_mod(len + cap - 1, cap);
    vstd::arithmetic::div_mod::lemma_mod_bound(len + cap - 1, cap);
    let r = (len + cap - 1) % cap;
    assert(n >= 0 && (len >= 1 ==> n >= 1)) by (nonlinear_arith)
        requires
            cap >= 1,
            len >= 0,
            len + cap - 1 == cap * n + r,
            0 <= r < cap,
    ;
}

/// Law: the progress reports of a successful flash are strictly increasing in
/// bytes written, every entry carries the image length as the total, and the
/// reports end exactly at a full image.
pub proof fn lemma_progress_entries_monotone(len: int, cap: int)
    requires
        1 <= cap,
        0 <= len <= usize::MAX,
    ensures
        forall|i: int, j: int|
            0 <= i < j < spec_progress_entries(len, cap).len() ==> (#[trigger] spec_progress_entries(
                len,
                cap,
            )[i]).0 < (#[trigger] spec_progress_entries(len, cap)[j]).0,
        forall|i: int|
            0 <= i < spec_progress_entries(len, cap).len() ==> (#[trigger] spec_progress_entries(
                len,
                cap,
            )[i]).1 == len,
        len > 0 ==> spec_progress_entries(len, cap).len() >= 1 && spec_progress_entries(
            len,
            cap,
        ).last() == (len as usize, len as usize),
        len == 0 ==> spec_progress_entries(len, cap).len() == 0,
{
    let n = spec_chunk_count(len, cap);
    vstd::arithmetic::div_mod::lemma_fundamental_div_mod(len + cap - 1, cap);
    vstd::arithmetic::div_mod::lemma_mod_bound(len + cap - 1, cap);
    let r = (len + cap - 1) % cap;
    assert(len + cap - 1 == cap * n + r);
    assert forall|i: int, j: int|
        0 <= i < j < n implies (#[trigger] spec_progress_entries(len, cap)[i]).0 < (
    #[trigger] spec_progress_entries(len, cap)[j]).0 by {
        assert((i + 1) * cap < len && (i + 1) * cap < (j + 1) * cap) by (nonlinear_arith)
            requires
                cap >= 1,
                0 <= i < j < n,
                len + cap - 1 == cap * n + r,
                0 <= r < cap,
        ;
    }
    if len > 0 {
        assert(n >= 1 && n * cap >= len) by (nonlinear_arith)
            requires
                cap >= 1,
                len >= 1,
                len + cap - 1 == cap * n + r,
                0 <= r < cap,
        ;
        assert(spec_progress_entries(len, cap)[n - 1] == (len as usize, len as usize));
    }
    if len == 0 {
        assert(n == 0) by (nonlinear_arith)
            requires
                cap >= 1,
                len == 0,
                len + cap - 1 == cap * n + r,
                0 <= r < cap,
        ;
    }
}

/// Whether an info record satisfies the data-model invariants a loader relies
/// on.
fn info_usable(info: &InfoPacket) -> (r: bool)
    ensures
        r == info.wf(),
{
    info.page_size >= 1 && info.n_buff_page >= 1 && info.flash_start < info.n_flash_page
}

} // verus!

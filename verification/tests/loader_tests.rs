//! End-to-end loader tests against a scripted radio and a cooperating device
//! simulator with a byte-level buffer and flash model.

use cfloader::bootloader::TARGET_NRF51;
use cfloader::bootloader::TARGET_STM32;
use cfloader::packets::FlashError;
use cfloader::packets::InfoPacket;
use cfloader::Bllink;
use cfloader::Bootloader;
use cfloader::CFLoader;
use cfloader::Error;
use cfloader::Radio;

/// A cooperating bootloader device: answers every command in the ACK payload,
/// keeps a staging buffer and a flash array, and records the operations it
/// served. Both targets share one memory, which is enough for these tests.
struct SimRadio {
    page_size: u16,
    n_buff_page: u16,
    n_flash_page: u16,
    flash_start: u16,
    version: u8,
    buffer: Vec<u8>,
    flash: Vec<u8>,
    last_response: Vec<u8>,
    load_calls: Vec<(u16, u16, Vec<u8>)>,
    write_calls: Vec<(u16, u16, u16)>,
    calls: usize,
}

impl SimRadio {
    fn new(page_size: u16, n_buff_page: u16, n_flash_page: u16, flash_start: u16) -> SimRadio {
        SimRadio {
            page_size,
            n_buff_page,
            n_flash_page,
            flash_start,
            version: 0x10,
            buffer: vec![0u8; page_size as usize * n_buff_page as usize],
            flash: vec![0u8; page_size as usize * n_flash_page as usize],
            last_response: Vec::new(),
            load_calls: Vec::new(),
            write_calls: Vec::new(),
            calls: 0,
        }
    }

    fn le16(bytes: &[u8], at: usize) -> u16 {
        u16::from_le_bytes([bytes[at], bytes[at + 1]])
    }

    fn handle(&mut self, p: &[u8]) -> Vec<u8> {
        let target = p[1];
        let cmd = p[2];
        match cmd {
            0x10 => {
                let mut r = vec![0xFF, target, 0x10];
                r.extend_from_slice(&self.page_size.to_le_bytes());
                r.extend_from_slice(&self.n_buff_page.to_le_bytes());
                r.extend_from_slice(&self.n_flash_page.to_le_bytes());
                r.extend_from_slice(&self.flash_start.to_le_bytes());
                r.extend_from_slice(&[0u8; 12]);
                r.push(self.version);
                r
            }
            0x14 => {
                let page = Self::le16(p, 3);
                let offset = Self::le16(p, 5);
                let data = &p[7..];
                let at = page as usize * self.page_size as usize + offset as usize;
                self.buffer[at..at + data.len()].copy_from_slice(data);
                self.load_calls.push((page, offset, data.to_vec()));
                Vec::new()
            }
            0x18 => {
                let buffer_page = Self::le16(p, 3);
                let flash_page = Self::le16(p, 5);
                let n_pages = Self::le16(p, 7);
                let ps = self.page_size as usize;
                let src = buffer_page as usize * ps;
                let dst = flash_page as usize * ps;
                let n = n_pages as usize * ps;
                let bytes: Vec<u8> = self.buffer[src..src + n].to_vec();
                self.flash[dst..dst + n].copy_from_slice(&bytes);
                self.write_calls.push((buffer_page, flash_page, n_pages));
                vec![0xFF, target, 0x18, 0x01, 0x00]
            }
            0x1C => {
                let page = Self::le16(p, 3);
                let offset = Self::le16(p, 5);
                let at = page as usize * self.page_size as usize + offset as usize;
                let end = (at + 27).min(self.flash.len());
                let mut r = vec![0xFF, target, 0x1C];
                r.extend_from_slice(&page.to_le_bytes());
                r.extend_from_slice(&offset.to_le_bytes());
                r.extend_from_slice(&self.flash[at..end]);
                r
            }
            _ => p.to_vec(),
        }
    }
}

impl Radio for SimRadio {
    fn send_packet(
        &mut self,
        _channel: u8,
        _address: &[u8; 5],
        payload: &[u8],
    ) -> Result<(bool, Vec<u8>), String> {
        self.calls += 1;
        if payload.len() == 1 && payload[0] == 0xFF {
            // Filler poll: hand out the pending response again.
            return Ok((true, self.last_response.clone()));
        }
        let response = self.handle(payload);
        self.last_response = response.clone();
        Ok((true, response))
    }
}

/// A radio that answers each call from a fixed script, repeating the last
/// entry, and records every payload.
struct ScriptRadio {
    script: Vec<(bool, Vec<u8>)>,
    pos: usize,
    calls: Vec<Vec<u8>>,
}

impl ScriptRadio {
    fn new(script: Vec<(bool, Vec<u8>)>) -> ScriptRadio {
        ScriptRadio { script, pos: 0, calls: Vec::new() }
    }
}

impl Radio for ScriptRadio {
    fn send_packet(
        &mut self,
        _channel: u8,
        _address: &[u8; 5],
        payload: &[u8],
    ) -> Result<(bool, Vec<u8>), String> {
        self.calls.push(payload.to_vec());
        let i = if self.pos < self.script.len() { self.pos } else { self.script.len() - 1 };
        self.pos += 1;
        Ok(self.script[i].clone())
    }
}


/// The info record of the simulated flight-controller target.
fn stm32_info_record() -> InfoPacket {
    InfoPacket {
        page_size: 1024,
        n_buff_page: 10,
        n_flash_page: 1024,
        flash_start: 128,
        cpu_id: [0u8; 12],
        version: 0x10,
    }
}

fn stm32_loader() -> CFLoader<SimRadio> {
    let sim = SimRadio::new(1024, 10, 1024, 128);
    let link = Bllink::new_with_radio(sim, None);
    CFLoader::new(link).unwrap()
}

fn test_image(len: usize) -> Vec<u8> {
    (0..len).map(|i| (i * 7 + 3) as u8).collect()
}

#[test]
fn new_fetches_both_infos() {
    let loader = stm32_loader();
    assert_eq!(loader.stm32_info().page_size(), 1024);
    assert_eq!(loader.stm32_info().n_buff_page(), 10);
    assert_eq!(loader.stm32_info().n_flash_page(), 1024);
    assert_eq!(loader.stm32_info().flash_start(), 128);
    assert_eq!(loader.stm32_info().version(), 0x10);
    assert_eq!(loader.nrf51_info().page_size(), 1024);
}

#[test]
fn new_rejects_unusable_info() {
    // A device reporting a zero page size cannot be worked with.
    let sim = SimRadio {
        page_size: 0,
        ..SimRadio::new(1, 1, 2, 0)
    };
    let link = Bllink::new_with_radio(sim, None);
    let err = CFLoader::new(link).map(|_| ()).unwrap_err();
    assert_eq!(err, Error::NotResponding(TARGET_NRF51));
}

#[test]
fn flash_2100_bytes_end_to_end() {
    let mut loader = stm32_loader();
    let image = test_image(2100);
    let start_address: u32 = 128 * 1024;
    let mut progress: Vec<(usize, usize)> = Vec::new();
    loader
        .flash_stm32_with_progress(start_address, &image, &mut progress)
        .unwrap();

    // 2100 bytes fit the 10-page staging buffer, so there is one chunk: the
    // staging fills buffer page 0 (1024 bytes), page 1 (1024 bytes) and page 2
    // (52 bytes), followed by one three-page write at flash page 128.
    let sim = &loader.bllink.radio;
    assert_eq!(sim.write_calls, vec![(0, 128, 3)]);
    let mut staged_per_page = [0usize; 3];
    let mut staged = vec![0u8; 3 * 1024];
    for (page, offset, data) in &sim.load_calls {
        assert!(data.len() <= 25);
        assert!(*page < 3);
        staged_per_page[*page as usize] += data.len();
        let at = *page as usize * 1024 + *offset as usize;
        staged[at..at + data.len()].copy_from_slice(data);
    }
    assert_eq!(staged_per_page, [1024, 1024, 52]);
    assert_eq!(&staged[..2100], &image[..]);

    // Progress is strictly increasing and ends at a full image.
    assert!(!progress.is_empty());
    for window in progress.windows(2) {
        assert!(window[0].0 < window[1].0);
    }
    for (_, total) in &progress {
        assert_eq!(*total, 2100);
    }
    assert_eq!(*progress.last().unwrap(), (2100, 2100));
}

#[test]
fn flash_then_read_yields_image() {
    let mut loader = stm32_loader();
    let image = test_image(2100);
    let start_address: u32 = 128 * 1024;
    loader.flash_stm32(start_address, &image).unwrap();
    let back = loader.read_stm32_flash(start_address, 2100).unwrap();
    assert_eq!(back, image);
}

#[test]
fn flash_then_read_yields_image_across_many_chunks() {
    // 25 KiB forces several buffer-sized chunks (capacity is 2 KiB here).
    let mut loader = {
        let sim = SimRadio::new(1024, 2, 512, 16);
        CFLoader::new(Bllink::new_with_radio(sim, None)).unwrap()
    };
    let image = test_image(25 * 1024);
    let start_address: u32 = 16 * 1024;
    let mut progress: Vec<(usize, usize)> = Vec::new();
    loader
        .flash_image_with_progress(TARGET_STM32, start_address, &image, &mut progress)
        .unwrap();
    let back = loader
        .read_flash(TARGET_STM32, start_address, image.len() as u32)
        .unwrap();
    assert_eq!(back, image);
    // One entry of 2048 staged bytes per chunk, the last chunk partial.
    assert_eq!(progress.len(), (image.len() + 2047) / 2048);
    assert_eq!(*progress.last().unwrap(), (image.len(), image.len()));
}

#[test]
fn read_returns_exactly_the_requested_length() {
    let mut loader = stm32_loader();
    for len in [1u32, 26, 27, 28, 100, 1024, 5000] {
        let out = loader.read_stm32_flash(0, len).unwrap();
        assert_eq!(out.len(), len as usize);
    }
}

#[test]
fn read_zero_length_makes_no_radio_call() {
    let mut loader = stm32_loader();
    let calls_before = loader.bllink.radio.calls;
    let out = loader.read_stm32_flash(4096, 0).unwrap();
    assert!(out.is_empty());
    assert_eq!(loader.bllink.radio.calls, calls_before);
}

#[test]
fn read_beyond_flash_is_invalid_argument() {
    let mut loader = stm32_loader();
    let capacity: u32 = 1024 * 1024;
    assert_eq!(
        loader.read_stm32_flash(capacity, 1),
        Err(Error::InvalidArgument)
    );
    assert_eq!(
        loader.read_flash(0x42, 0, 1),
        Err(Error::InvalidArgument)
    );
}

#[test]
fn flash_below_firmware_area_is_invalid_argument() {
    let mut loader = stm32_loader();
    let image = test_image(100);
    // Page 127 lies below flash_start = 128.
    assert_eq!(
        loader.flash_stm32(127 * 1024, &image),
        Err(Error::InvalidArgument)
    );
    assert!(loader.bllink.radio.load_calls.is_empty());
    assert!(loader.bllink.radio.write_calls.is_empty());
}

#[test]
fn flash_beyond_capacity_is_invalid_argument() {
    let mut loader = stm32_loader();
    let image = test_image(4096);
    // The last page starts at 1023 * 1024; four KiB do not fit there.
    assert_eq!(
        loader.flash_stm32(1023 * 1024, &image),
        Err(Error::InvalidArgument)
    );
    assert_eq!(
        loader.flash_image(0x00, 128 * 1024, &image),
        Err(Error::InvalidArgument)
    );
}

#[test]
fn load_buffer_over_25_bytes_makes_no_radio_call() {
    let sim = SimRadio::new(1024, 10, 1024, 128);
    let mut link = Bllink::new_with_radio(sim, None);
    let stm32 = Bootloader::stm32();
    let data = [0u8; 26];
    assert_eq!(
        stm32.load_buffer(&mut link, 0, 0, &data),
        Err(Error::PayloadTooLarge)
    );
    assert_eq!(link.radio.calls, 0);
    // 25 bytes pass.
    assert_eq!(stm32.load_buffer(&mut link, 0, 0, &data[..25]), Ok(()));
}

#[test]
fn single_27_byte_flash_read() {
    let mut sim = SimRadio::new(1024, 10, 1024, 128);
    let expected: Vec<u8> = (100..127).collect();
    let at = 128 * 1024;
    sim.flash[at..at + 27].copy_from_slice(&expected);
    let mut link = Bllink::new_with_radio(sim, None);
    let nrf51 = Bootloader::nrf51();
    let packet = nrf51.read_flash(&mut link, 128, 0).unwrap();
    assert_eq!(packet.page, 128);
    assert_eq!(packet.address, 0);
    assert_eq!(packet.data, expected);
}

#[test]
fn stale_flash_read_is_detected() {
    // The device echoes page 129 for a read of page 128: a stale response.
    let mut stale = vec![0xFF, TARGET_NRF51, 0x1C, 0x81, 0x00, 0x00, 0x00];
    stale.extend_from_slice(&[0xAB; 20]);
    let mut link = Bllink::new_with_radio(ScriptRadio::new(vec![(true, stale)]), None);
    let nrf51 = Bootloader::nrf51();
    assert_eq!(
        nrf51.read_flash(&mut link, 128, 0),
        Err(Error::StalePacket {
            requested_page: 128,
            requested_address: 0,
            received_page: 129,
            received_address: 0,
        })
    );
}

#[test]
fn flash_write_succeeds_after_filler_polls() {
    // The write is acknowledged with an empty payload; the status arrives only
    // on the second filler poll.
    let good = vec![0xFF, TARGET_STM32, 0x18, 0x01, 0x00];
    let script = vec![
        (true, Vec::new()),
        (true, Vec::new()),
        (true, good),
    ];
    let mut link = Bllink::new_with_radio(ScriptRadio::new(script), None);
    let stm32 = Bootloader::stm32();
    let response = stm32.write_flash(&mut link, &stm32_info_record(), 0, 128, 1).unwrap();
    assert!(response.is_success());
    assert_eq!(
        link.radio.calls[0],
        vec![0xFF, TARGET_STM32, 0x18, 0x00, 0x00, 0x80, 0x00, 0x01, 0x00]
    );
}

#[test]
fn flash_write_erase_failure() {
    let bad = vec![0xFF, TARGET_STM32, 0x18, 0x01, 0x02];
    let mut link = Bllink::new_with_radio(ScriptRadio::new(vec![(true, bad)]), None);
    let stm32 = Bootloader::stm32();
    assert_eq!(
        stm32.write_flash(&mut link, &stm32_info_record(), 0, 128, 1),
        Err(Error::FlashFailed(FlashError::FlashEraseFailed))
    );
}

#[test]
fn write_flash_out_of_range_makes_no_radio_call() {
    let mut link = Bllink::new_with_radio(ScriptRadio::new(vec![(true, Vec::new())]), None);
    let stm32 = Bootloader::stm32();
    let info = stm32_info_record();
    // Eleven pages overrun the ten-page staging buffer.
    assert_eq!(
        stm32.write_flash(&mut link, &info, 0, 128, 11),
        Err(Error::InvalidArgument)
    );
    // Two pages starting at the last flash page overrun the flash.
    assert_eq!(
        stm32.write_flash(&mut link, &info, 0, 1023, 2),
        Err(Error::InvalidArgument)
    );
    assert_eq!(link.radio.calls.len(), 0);
}

#[test]
fn empty_read_response_parses_to_empty_data() {
    // A read response with the frame head and coordinates but no data is
    // well-formed; it is the reading engine that turns it into a short read.
    let empty = vec![0xFF, TARGET_STM32, 0x1C, 0x80, 0x00, 0x00, 0x00];
    let mut link = Bllink::new_with_radio(ScriptRadio::new(vec![(true, empty)]), None);
    let stm32 = Bootloader::stm32();
    let packet = stm32.read_flash(&mut link, 128, 0).unwrap();
    assert!(packet.data.is_empty());
}

#[test]
fn reset_to_firmware_sends_arm_then_warm_boot() {
    let sim = SimRadio::new(1024, 10, 1024, 128);
    let mut loader = CFLoader::new(Bllink::new_with_radio(sim, None)).unwrap();
    assert_eq!(loader.reset_to_firmware(), Ok(()));
    // Fire-and-forget even when nothing answers.
    let ackless = ScriptRadio::new(vec![(false, Vec::new())]);
    let mut link = Bllink::new_with_radio(ackless, None);
    let nrf51 = Bootloader::nrf51();
    assert_eq!(nrf51.reset_init(&mut link), Ok(()));
    assert_eq!(nrf51.reset(&mut link), Ok(()));
    assert_eq!(link.radio.calls[0], vec![0xFF, TARGET_NRF51, 0xFF]);
}

#[test]
fn get_vbat_returns_voltage_bytes() {
    // The voltage is read from response bytes 2 to 5; byte 2 is the echoed
    // command byte, as the protocol prescribes.
    let response = vec![0xFF, TARGET_NRF51, 0x04, 0x9A, 0x99, 0x6C, 0x40];
    let mut link = Bllink::new_with_radio(ScriptRadio::new(vec![(true, response)]), None);
    let nrf51 = Bootloader::nrf51();
    let bytes = nrf51.get_vbat(&mut link).unwrap();
    assert_eq!(bytes, [0x04, 0x9A, 0x99, 0x6C]);
}

#[test]
fn get_vbat_short_response_is_malformed() {
    let response = vec![0xFF, TARGET_NRF51, 0x04, 0x00];
    let mut link = Bllink::new_with_radio(ScriptRadio::new(vec![(true, response)]), None);
    let nrf51 = Bootloader::nrf51();
    assert_eq!(nrf51.get_vbat(&mut link), Err(Error::MalformedVbat));
}

#[test]
fn get_mapping_skips_one_echo_byte() {
    let response = vec![0xFF, TARGET_STM32, 0x12, 0x04, 0x10, 0x01, 0x80];
    let mut link = Bllink::new_with_radio(ScriptRadio::new(vec![(true, response)]), None);
    let stm32 = Bootloader::stm32();
    let mapping = stm32.get_mapping(&mut link).unwrap();
    assert_eq!(mapping, vec![TARGET_STM32, 0x12, 0x04, 0x10, 0x01, 0x80]);
}

#[test]
fn read_buffer_echoes_coordinates() {
    let response = vec![0xFF, TARGET_STM32, 0x15, 0x02, 0x00, 0x10, 0x00, 0x5A];
    let mut link = Bllink::new_with_radio(ScriptRadio::new(vec![(true, response)]), None);
    let stm32 = Bootloader::stm32();
    let packet = stm32.read_buffer(&mut link, 2, 16).unwrap();
    assert_eq!(packet.page, 2);
    assert_eq!(packet.address, 16);
    assert_eq!(packet.data, vec![0x5A]);
}

/// The 22 info payload bytes of a small device, framed as a response to a
/// `get_info` request of the given target.
fn info_response(target: u8, page_size: u16, n_buff: u16, n_flash: u16, flash_start: u16) -> Vec<u8> {
    let mut r = vec![0xFF, target, 0x10];
    r.extend_from_slice(&page_size.to_le_bytes());
    r.extend_from_slice(&n_buff.to_le_bytes());
    r.extend_from_slice(&n_flash.to_le_bytes());
    r.extend_from_slice(&flash_start.to_le_bytes());
    r.extend_from_slice(&[0u8; 12]);
    r.push(0x10);
    r
}

#[test]
fn short_read_surfaces_from_the_engine() {
    // A device that answers every read with the bare header makes the engine
    // abort with a short read once it needs data.
    let header_only = vec![0xFF, TARGET_STM32, 0x1C, 0x10, 0x00, 0x00, 0x00];
    let script = vec![
        (true, info_response(TARGET_NRF51, 64, 2, 32, 1)),
        (true, info_response(TARGET_STM32, 64, 2, 32, 1)),
        (true, header_only),
    ];
    let mut loader = CFLoader::new(Bllink::new_with_radio(ScriptRadio::new(script), None)).unwrap();
    assert_eq!(loader.read_stm32_flash(1024, 10), Err(Error::ShortRead));
}

#[test]
fn get_info_sends_the_expected_frame() {
    let script = vec![(true, info_response(TARGET_STM32, 1024, 10, 1024, 128))];
    let mut link = Bllink::new_with_radio(ScriptRadio::new(script), None);
    let stm32 = Bootloader::stm32();
    let info = stm32.get_info(&mut link).unwrap();
    assert_eq!(link.radio.calls[0], vec![0xFF, 0xFF, 0x10]);
    assert_eq!(info.page_size(), 1024);
    assert_eq!(info.flash_start(), 128);
}

#[test]
fn get_info_without_answer_times_out() {
    let script = vec![(false, Vec::new())];
    let mut link = Bllink::new_with_radio(ScriptRadio::new(script), None);
    let nrf51 = Bootloader::nrf51();
    assert_eq!(nrf51.get_info(&mut link).map(|_| ()), Err(Error::LinkTimeout));
}

#[test]
fn set_address_sends_the_address_bytes() {
    let mut link = Bllink::new_with_radio(ScriptRadio::new(vec![(true, Vec::new())]), None);
    let nrf51 = Bootloader::nrf51();
    assert_eq!(nrf51.set_address(&mut link, &[0xE7, 0xE7, 0xE7, 0xE7, 0x42]), Ok(()));
    assert_eq!(
        link.radio.calls[0],
        vec![0xFF, TARGET_NRF51, 0x11, 0xE7, 0xE7, 0xE7, 0xE7, 0x42]
    );
}

#[test]
fn power_commands_swallow_link_errors() {
    let mut link = Bllink::new_with_radio(ScriptRadio::new(vec![(false, Vec::new())]), None);
    let nrf51 = Bootloader::nrf51();
    assert_eq!(nrf51.all_off(&mut link), Ok(()));
    assert_eq!(nrf51.sys_off(&mut link), Ok(()));
    assert_eq!(nrf51.sys_on(&mut link), Ok(()));
    let n = link.radio.calls.len();
    assert_eq!(link.radio.calls[0], vec![0xFF, TARGET_NRF51, 0x01]);
    assert!(n >= 3);
}

#[test]
fn flash_status_parses_done_flag() {
    let response = vec![0xFF, TARGET_STM32, 0x19, 0x00, 0x00];
    let mut link = Bllink::new_with_radio(ScriptRadio::new(vec![(true, response)]), None);
    let stm32 = Bootloader::stm32();
    let status = stm32.flash_status(&mut link).unwrap();
    assert!(!status.is_done());
    assert!(!status.is_success());
}

#[test]
fn load_buffer_sends_coordinates_and_data() {
    let mut link = Bllink::new_with_radio(ScriptRadio::new(vec![(true, Vec::new())]), None);
    let stm32 = Bootloader::stm32();
    assert_eq!(stm32.load_buffer(&mut link, 1, 512, &[0xAA, 0xBB]), Ok(()));
    assert_eq!(
        link.radio.calls[0],
        vec![0xFF, TARGET_STM32, 0x14, 0x01, 0x00, 0x00, 0x02, 0xAA, 0xBB]
    );
}

#[test]
fn reset_to_firmware_wire_frames() {
    let script = vec![
        (true, info_response(TARGET_NRF51, 1024, 10, 1024, 128)),
        (true, info_response(TARGET_STM32, 1024, 10, 1024, 128)),
        (true, Vec::new()),
    ];
    let mut loader = CFLoader::new(Bllink::new_with_radio(ScriptRadio::new(script), None)).unwrap();
    assert_eq!(loader.reset_to_firmware(), Ok(()));
    let calls = &loader.bllink.radio.calls;
    assert_eq!(calls[2], vec![0xFF, TARGET_NRF51, 0xFF]);
    assert_eq!(calls[3], vec![0xFF, TARGET_NRF51, 0xF0, 0x01]);
}

use std::cell::RefCell;
use std::rc::Rc;

use ch1115::Ch1115;
use ch1115::BusError;
use ch1115::DelaySource;
use ch1115::DisplayInterface;
use ch1115::Error;
use ch1115::Instruction;
use ch1115::MaxBrightness;
use ch1115::NoResetPin;
use ch1115::ResetPin;
use ch1115::Size128x64;
use ch1115::Size88x48;

#[derive(Clone, Debug, PartialEq, Eq)]
enum BusRecord {
    Commands(Vec<u8>),
    Data(Vec<u8>),
}

struct RecordingBus {
    records: Rc<RefCell<Vec<BusRecord>>>,
}

impl DisplayInterface for RecordingBus {
    fn send_commands(&mut self, commands: &[u8]) -> Result<(), BusError> {
        self.records
            .borrow_mut()
            .push(BusRecord::Commands(commands.to_vec()));
        Ok(())
    }

    fn send_data(&mut self, data: &[u8]) -> Result<(), BusError> {
        self.records
            .borrow_mut()
            .push(BusRecord::Data(data.to_vec()));
        Ok(())
    }
}

struct FailingBus {
    remaining_ok: usize,
}

impl DisplayInterface for FailingBus {
    fn send_commands(&mut self, _commands: &[u8]) -> Result<(), BusError> {
        if self.remaining_ok == 0 {
            Err(BusError)
        } else {
            self.remaining_ok -= 1;
            Ok(())
        }
    }

    fn send_data(&mut self, _data: &[u8]) -> Result<(), BusError> {
        if self.remaining_ok == 0 {
            Err(BusError)
        } else {
            self.remaining_ok -= 1;
            Ok(())
        }
    }
}

#[derive(Clone, Debug, PartialEq, Eq)]
enum ResetEvent {
    High,
    Low,
    WaitMs(u32),
    WaitUs(u32),
}

struct RecordingPin {
    events: Rc<RefCell<Vec<ResetEvent>>>,
}

impl ResetPin for RecordingPin {
    type PinError = u8;

    fn set_high(&mut self) -> Result<(), u8> {
        self.events.borrow_mut().push(ResetEvent::High);
        Ok(())
    }

    fn set_low(&mut self) -> Result<(), u8> {
        self.events.borrow_mut().push(ResetEvent::Low);
        Ok(())
    }
}

struct RecordingDelay {
    events: Rc<RefCell<Vec<ResetEvent>>>,
}

impl DelaySource for RecordingDelay {
    fn delay_ms(&mut self, ms: u32) {
        self.events.borrow_mut().push(ResetEvent::WaitMs(ms));
    }

    fn delay_us(&mut self, us: u32) {
        self.events.borrow_mut().push(ResetEvent::WaitUs(us));
    }
}

struct FailingPin {
    fail_on_call: usize,
    calls: usize,
}

impl ResetPin for FailingPin {
    type PinError = u8;

    fn set_high(&mut self) -> Result<(), u8> {
        self.calls += 1;
        if self.calls == self.fail_on_call {
            Err(7)
        } else {
            Ok(())
        }
    }

    fn set_low(&mut self) -> Result<(), u8> {
        self.calls += 1;
        if self.calls == self.fail_on_call {
            Err(7)
        } else {
            Ok(())
        }
    }
}

struct NullDelay;

impl DelaySource for NullDelay {
    fn delay_ms(&mut self, _ms: u32) {}

    fn delay_us(&mut self, _us: u32) {}
}

type Driver128 = Ch1115<RecordingBus, NoResetPin, Size128x64>;
type Driver88 = Ch1115<RecordingBus, NoResetPin, Size88x48>;

fn recording_driver_128() -> (Driver128, Rc<RefCell<Vec<BusRecord>>>) {
    let records = Rc::new(RefCell::new(Vec::new()));
    let bus = RecordingBus {
        records: records.clone(),
    };
    (
        Ch1115::new(bus, NoResetPin::new(), Size128x64),
        records,
    )
}

fn recording_driver_88() -> (Driver88, Rc<RefCell<Vec<BusRecord>>>) {
    let records = Rc::new(RefCell::new(Vec::new()));
    let bus = RecordingBus {
        records: records.clone(),
    };
    (
        Ch1115::new(bus, NoResetPin::new(), Size88x48),
        records,
    )
}

fn cmd(b: u8) -> BusRecord {
    BusRecord::Commands(vec![b])
}

fn expected_flush(width: usize, offset_x: u8, frame: &[u8]) -> Vec<BusRecord> {
    let pages = frame.len() / width;
    let mut out = Vec::new();
    for page in 0..pages {
        out.push(cmd(0xB0 | page as u8));
        out.push(cmd(0x00 | (offset_x & 0x0F)));
        out.push(cmd(0x10 | ((offset_x >> 4) & 0x0F)));
        out.push(BusRecord::Data(
            frame[page * width..(page + 1) * width].to_vec(),
        ));
    }
    out
}

const INIT_CONFIG_128: [u8; 20] = [
    0xAE, 0xD5, 0x80, 0xA8, 0x3F, 0xD3, 0x00, 0x40, 0xAD, 0x8B, 0x32, 0xA1, 0xC8, 0xA2, 0x81,
    0x80, 0xD9, 0x22, 0xDB, 0x35,
];

#[test]
fn new_then_flush_sends_zeroed_pages_128x64() {
    let (mut driver, records) = recording_driver_128();
    driver.flush().unwrap();
    assert_eq!(*records.borrow(), expected_flush(128, 0, &[0u8; 1024]));
}

#[test]
fn flush_addresses_88x48_with_column_offset() {
    let (mut driver, records) = recording_driver_88();
    driver.flush().unwrap();
    let recorded = records.borrow();
    assert_eq!(*recorded, expected_flush(88, 20, &[0u8; 528]));
    assert_eq!(recorded.len(), 24);
    assert_eq!(recorded[1], cmd(0x04));
    assert_eq!(recorded[2], cmd(0x11));
}

#[test]
fn flush_emits_pages_in_order_each_with_column_pair_and_data() {
    let (mut driver, records) = recording_driver_128();
    driver.set_pixel(0, 0, true);
    driver.flush().unwrap();
    let recorded = records.borrow();
    assert_eq!(recorded.len(), 32);
    for page in 0..8usize {
        assert_eq!(recorded[4 * page], cmd(0xB0 | page as u8));
        assert_eq!(recorded[4 * page + 1], cmd(0x00));
        assert_eq!(recorded[4 * page + 2], cmd(0x10));
        match &recorded[4 * page + 3] {
            BusRecord::Data(bytes) => assert_eq!(bytes.len(), 128),
            other => panic!("page {} sent {:?} instead of data", page, other),
        }
    }
}

#[test]
fn set_pixel_round_trip_restores_buffer() {
    let (mut driver, records) = recording_driver_128();
    driver.set_pixel(5, 13, true);
    assert!(driver.get_pixel(5, 13));
    driver.set_pixel(5, 13, false);
    assert!(!driver.get_pixel(5, 13));
    driver.flush().unwrap();
    assert_eq!(*records.borrow(), expected_flush(128, 0, &[0u8; 1024]));
}

#[test]
fn set_pixel_keeps_sibling_bits_of_shared_byte() {
    let (mut driver, records) = recording_driver_128();
    driver.set_pixel(0, 0, true);
    driver.set_pixel(0, 1, true);
    driver.set_pixel(0, 0, false);
    driver.flush().unwrap();
    let mut frame = [0u8; 1024];
    frame[0] = 0x02;
    assert_eq!(*records.borrow(), expected_flush(128, 0, &frame));
}

#[test]
fn set_pixel_out_of_bounds_is_ignored() {
    let (mut driver, records) = recording_driver_128();
    driver.set_pixel(-1, 0, true);
    driver.set_pixel(0, -1, true);
    driver.set_pixel(128, 0, true);
    driver.set_pixel(0, 64, true);
    driver.set_pixel(i32::MIN, i32::MAX, true);
    assert!(records.borrow().is_empty());
    driver.flush().unwrap();
    assert_eq!(*records.borrow(), expected_flush(128, 0, &[0u8; 1024]));
}

#[test]
fn clear_turns_every_pixel_off() {
    let (mut driver, records) = recording_driver_128();
    driver.set_pixel(0, 0, true);
    driver.set_pixel(127, 63, true);
    driver.set_pixel(64, 32, true);
    records.borrow_mut().clear();
    driver.clear().unwrap();
    assert_eq!(*records.borrow(), expected_flush(128, 0, &[0u8; 1024]));
    for x in 0..128 {
        for y in 0..64 {
            assert!(!driver.get_pixel(x, y));
        }
    }
}

#[test]
fn set_column_address_beyond_range_is_silent_success() {
    let (mut driver, records) = recording_driver_128();
    assert!(driver.set_column_address(128).is_ok());
    assert!(driver.set_column_address(200).is_ok());
    assert!(driver.set_column_address(255).is_ok());
    assert!(records.borrow().is_empty());
}

#[test]
fn set_column_address_splits_nibbles() {
    let (mut driver, records) = recording_driver_128();
    driver.set_column_address(127).unwrap();
    assert_eq!(*records.borrow(), vec![cmd(0x0F), cmd(0x17)]);
    records.borrow_mut().clear();
    driver.set_column_address(0x5A).unwrap();
    assert_eq!(*records.borrow(), vec![cmd(0x0A), cmd(0x15)]);
}

#[test]
fn set_page_beyond_range_is_silent_success() {
    let (mut driver, records) = recording_driver_128();
    assert!(driver.set_page(8).is_ok());
    assert!(driver.set_page(255).is_ok());
    assert!(records.borrow().is_empty());
    driver.set_page(0).unwrap();
    driver.set_page(7).unwrap();
    assert_eq!(*records.borrow(), vec![cmd(0xB0), cmd(0xB7)]);
}

#[test]
fn breathing_effect_encodes_parameter_byte() {
    let (mut driver, records) = recording_driver_128();
    driver
        .set_breathing_effect(true, MaxBrightness::_64, 4)
        .unwrap();
    assert_eq!(*records.borrow(), vec![cmd(0x23), cmd(0x93)]);
}

#[test]
fn breathing_effect_brightness_and_frame_encodings() {
    let (mut driver, records) = recording_driver_128();
    driver
        .set_breathing_effect(false, MaxBrightness::_256, 1)
        .unwrap();
    driver
        .set_breathing_effect(true, MaxBrightness::_128, 2)
        .unwrap();
    driver
        .set_breathing_effect(true, MaxBrightness::_32, 8)
        .unwrap();
    assert_eq!(
        *records.borrow(),
        vec![
            cmd(0x23),
            cmd(0x00),
            cmd(0x23),
            cmd(0x89),
            cmd(0x23),
            cmd(0x9F),
        ]
    );
}

#[test]
fn breathing_effect_rejects_frame_counts_outside_cycle() {
    let (mut driver, records) = recording_driver_128();
    assert!(driver
        .set_breathing_effect(true, MaxBrightness::_64, 0)
        .is_ok());
    assert!(driver
        .set_breathing_effect(true, MaxBrightness::_64, 9)
        .is_ok());
    assert!(driver
        .set_breathing_effect(true, MaxBrightness::_64, 255)
        .is_ok());
    assert!(records.borrow().is_empty());
}

#[test]
fn init_writes_configuration_clear_and_display_on_in_order() {
    let (mut driver, records) = recording_driver_128();
    driver.init(&mut NullDelay).unwrap();
    let recorded = records.borrow();
    assert_eq!(recorded.len(), 55);
    for (i, byte) in INIT_CONFIG_128.iter().enumerate() {
        assert_eq!(recorded[i], cmd(*byte));
    }
    assert_eq!(
        recorded[20..52].to_vec(),
        expected_flush(128, 0, &[0u8; 1024])
    );
    assert_eq!(recorded[52], cmd(0xA4));
    assert_eq!(recorded[53], cmd(0xA6));
    assert_eq!(recorded[54], cmd(0xAF));
}

#[test]
fn init_uses_multiplex_ratio_of_panel_height() {
    let (mut driver, records) = recording_driver_88();
    driver.init(&mut NullDelay).unwrap();
    let recorded = records.borrow();
    assert_eq!(recorded[3], cmd(0xA8));
    assert_eq!(recorded[4], cmd(47));
    assert_eq!(recorded.len(), 20 + 24 + 3);
}

#[test]
fn end_to_end_first_data_byte_lights_origin_pixel() {
    let (mut driver, records) = recording_driver_128();
    driver.init(&mut NullDelay).unwrap();
    driver.set_pixel(0, 0, true);
    driver.flush().unwrap();
    let recorded = records.borrow();
    assert_eq!(recorded.len(), 55 + 32);
    let mut data_bursts = Vec::new();
    for record in recorded[55..].iter() {
        if let BusRecord::Data(bytes) = record {
            data_bursts.push(bytes.clone());
        }
    }
    assert_eq!(data_bursts.len(), 8);
    assert_eq!(data_bursts[0][0], 0x01);
    for (page, burst) in data_bursts.iter().enumerate() {
        for (i, byte) in burst.iter().enumerate() {
            if page == 0 && i == 0 {
                continue;
            }
            assert_eq!(*byte, 0x00, "page {} byte {} should stay blank", page, i);
        }
    }
}

#[test]
fn hard_reset_pulses_high_low_high_with_documented_delays() {
    let events = Rc::new(RefCell::new(Vec::new()));
    let pin = RecordingPin {
        events: events.clone(),
    };
    let delay_events = events.clone();
    let records = Rc::new(RefCell::new(Vec::new()));
    let bus = RecordingBus {
        records: records.clone(),
    };
    let mut driver = Ch1115::new(bus, pin, Size128x64);
    let mut delay = RecordingDelay {
        events: delay_events,
    };
    driver.hard_reset(&mut delay).unwrap();
    assert_eq!(
        *events.borrow(),
        vec![
            ResetEvent::High,
            ResetEvent::WaitMs(1),
            ResetEvent::Low,
            ResetEvent::WaitUs(50),
            ResetEvent::High,
            ResetEvent::WaitMs(1),
        ]
    );
    assert!(records.borrow().is_empty());
}

#[test]
fn bus_failure_is_reported_as_display_error() {
    let mut driver = Ch1115::new(
        FailingBus { remaining_ok: 0 },
        NoResetPin::new(),
        Size128x64,
    );
    assert!(matches!(driver.flush(), Err(Error::DisplayError)));
    assert!(matches!(driver.set_page(3), Err(Error::DisplayError)));
    assert!(matches!(
        driver.set_column_address(10),
        Err(Error::DisplayError)
    ));
    assert!(driver.set_page(9).is_ok());
    assert!(driver.set_column_address(130).is_ok());
}

#[test]
fn bus_failure_mid_flush_aborts_the_sequence() {
    let mut driver = Ch1115::new(
        FailingBus { remaining_ok: 5 },
        NoResetPin::new(),
        Size128x64,
    );
    assert!(matches!(driver.flush(), Err(Error::DisplayError)));
}

#[test]
fn pin_failure_is_reported_as_wrapped_pin_error() {
    let records = Rc::new(RefCell::new(Vec::new()));
    let bus = RecordingBus {
        records: records.clone(),
    };
    let pin = FailingPin {
        fail_on_call: 1,
        calls: 0,
    };
    let mut driver = Ch1115::new(bus, pin, Size128x64);
    assert!(matches!(
        driver.hard_reset(&mut NullDelay),
        Err(Error::Pin(7))
    ));
    assert!(records.borrow().is_empty());

    let init_records = Rc::new(RefCell::new(Vec::new()));
    let init_bus = RecordingBus {
        records: init_records.clone(),
    };
    let init_pin = FailingPin {
        fail_on_call: 1,
        calls: 0,
    };
    let mut init_driver = Ch1115::new(init_bus, init_pin, Size128x64);
    assert!(matches!(
        init_driver.init(&mut NullDelay),
        Err(Error::Pin(7))
    ));
    assert!(init_records.borrow().is_empty());
}

#[test]
fn pin_failure_on_release_still_aborts_reset() {
    let records = Rc::new(RefCell::new(Vec::new()));
    let bus = RecordingBus {
        records: records.clone(),
    };
    let pin = FailingPin {
        fail_on_call: 3,
        calls: 0,
    };
    let mut driver = Ch1115::new(bus, pin, Size128x64);
    assert!(matches!(
        driver.hard_reset(&mut NullDelay),
        Err(Error::Pin(7))
    ));
    assert!(records.borrow().is_empty());
}

#[test]
fn no_reset_pin_lets_the_sequence_run_without_a_wired_line() {
    let (mut driver, records) = recording_driver_128();
    driver.hard_reset(&mut NullDelay).unwrap();
    assert!(records.borrow().is_empty());
    driver.init(&mut NullDelay).unwrap();
    assert_eq!(records.borrow().len(), 55);
}

#[test]
fn draw_pixels_applies_batch_and_skips_off_canvas_entries() {
    let (mut driver, records) = recording_driver_128();
    driver.draw_pixels(&[
        (0, 0, true),
        (127, 63, true),
        (128, 0, true),
        (-5, 2, true),
        (0, 64, true),
    ]);
    assert!(driver.get_pixel(0, 0));
    assert!(driver.get_pixel(127, 63));
    assert!(!driver.get_pixel(64, 32));
    driver.flush().unwrap();
    let mut frame = [0u8; 1024];
    frame[0] = 0x01;
    frame[1023] = 0x80;
    assert_eq!(*records.borrow(), expected_flush(128, 0, &frame));
}

#[test]
fn draw_pixels_applies_later_entries_over_earlier_ones() {
    let (mut driver, _records) = recording_driver_128();
    driver.draw_pixels(&[(3, 3, true), (3, 3, false)]);
    assert!(!driver.get_pixel(3, 3));
    driver.draw_pixels(&[(3, 3, false), (3, 3, true)]);
    assert!(driver.get_pixel(3, 3));
}

#[test]
fn get_pixel_reads_off_canvas_as_off() {
    let (driver, _records) = recording_driver_128();
    assert!(!driver.get_pixel(-1, 0));
    assert!(!driver.get_pixel(0, -1));
    assert!(!driver.get_pixel(128, 0));
    assert!(!driver.get_pixel(0, 64));
}

#[test]
fn instruction_values_match_the_datasheet() {
    assert_eq!(Instruction::SetDisplayOff.value(), 0xAE);
    assert_eq!(Instruction::SetDisplayOn.value(), 0xAF);
    assert_eq!(Instruction::SetPageAddress.value(), 0xB0);
    assert_eq!(Instruction::SetLowerColumnAddress.value(), 0x00);
    assert_eq!(Instruction::SetHigherColumnAddress.value(), 0x10);
    assert_eq!(Instruction::SetBreathingLight.value(), 0x23);
    assert_eq!(Instruction::SetEntireDisplayResume.value(), 0xA4);
    assert_eq!(Instruction::SetDisplayNormal.value(), 0xA6);
}

#[test]
fn max_brightness_selectors_are_two_bits() {
    assert_eq!(MaxBrightness::_256.value(), 0b00);
    assert_eq!(MaxBrightness::_128.value(), 0b01);
    assert_eq!(MaxBrightness::_64.value(), 0b10);
    assert_eq!(MaxBrightness::_32.value(), 0b11);
}

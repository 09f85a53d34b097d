use std::cell::RefCell;
use std::rc::Rc;

use acurite::power::{
    cpu_clock_divider, disable_bod_in_sleep, disable_unused_hardware, sleep_disable, sleep_enable,
    Ac, Cpu, SleepMode,
};
use acurite::radio::{DelayUs, OutputPin, Radio};
use acurite::tmp102::{
    temperature_from_bytes, Config, DelayMs, I2cBus, I2cError, SensorError, Tmp102, CONFIG_EM,
    CONFIG_OS, CONFIG_SD, CONVERSION_POLL_LIMIT, TMP102_ADDR,
};
use acurite::watchdog::{Config as WdtConfig, Timeout, Watchdog};

#[derive(Clone, Copy, Debug, PartialEq, Eq)]
enum PinEvent {
    High,
    Low,
    Delay(u16),
}

struct RecordingPin {
    log: Rc<RefCell<Vec<PinEvent>>>,
}

impl OutputPin for RecordingPin {
    fn set_high(&mut self) {
        self.log.borrow_mut().push(PinEvent::High);
    }

    fn set_low(&mut self) {
        self.log.borrow_mut().push(PinEvent::Low);
    }
}

struct RecordingDelay {
    log: Rc<RefCell<Vec<PinEvent>>>,
}

impl DelayUs for RecordingDelay {
    fn delay_us(&mut self, us: u16) {
        self.log.borrow_mut().push(PinEvent::Delay(us));
    }
}

/// The high/delay/low/delay quadruples a recorded emission spells.
fn pulses(log: &[PinEvent]) -> Vec<(u16, u16)> {
    assert_eq!(0, log.len() % 4, "emission must be whole pulses");
    log.chunks(4)
        .map(|chunk| match *chunk {
            [PinEvent::High, PinEvent::Delay(on), PinEvent::Low, PinEvent::Delay(off)] => {
                (on, off)
            }
            _ => panic!("malformed pulse: {:?}", chunk),
        })
        .collect()
}

#[test]
fn test_transmit_pulse_train() {
    let log = Rc::new(RefCell::new(Vec::new()));
    let mut radio = Radio::new(
        RecordingPin { log: log.clone() },
        RecordingDelay { log: log.clone() },
    );
    radio.transmit(&[0xe6, 0x81, 0x36, 0x13]);
    let emitted = pulses(&log.borrow());
    // Start, one pulse per bit most-significant-bit first, stop.
    let mut expected = vec![(500, 9000)];
    for byte in [0xe6u8, 0x81, 0x36, 0x13] {
        for bit in (0..8).rev() {
            if (byte >> bit) & 1 == 1 {
                expected.push((500, 4000));
            } else {
                expected.push((500, 2000));
            }
        }
    }
    expected.push((500, 500));
    assert_eq!(expected, emitted);
    assert_eq!(34, emitted.len());
}

#[test]
fn test_report_cycle_transmits_redundantly() {
    let log = Rc::new(RefCell::new(Vec::new()));
    let mut radio = Radio::new(
        RecordingPin { log: log.clone() },
        RecordingDelay { log: log.clone() },
    );
    let mut controller = acurite::controller::Controller::new(0xe6, 2000, 2, 31);
    let action = controller.report_cycle(&mut radio, Some(0x0f80), 511);
    let frame = match action {
        acurite::controller::Action::Transmit { frame, repeats } => {
            assert_eq!(2, repeats);
            frame
        }
        _ => panic!("a good reading must transmit"),
    };
    assert_eq!([0xe6, 0x81, 0x36, 0x13], frame);
    let emitted = pulses(&log.borrow());
    // Two identical pulse trains of start, 32 bits, stop.
    assert_eq!(68, emitted.len());
    assert_eq!(emitted[..34], emitted[34..]);
    assert_eq!((500, 9000), emitted[0]);
    assert_eq!((500, 500), emitted[33]);
}

#[test]
fn test_report_cycle_failure_emits_nothing() {
    let log = Rc::new(RefCell::new(Vec::new()));
    let mut radio = Radio::new(
        RecordingPin { log: log.clone() },
        RecordingDelay { log: log.clone() },
    );
    let mut controller = acurite::controller::Controller::new(0xe6, 2000, 7, 31);
    let action = controller.report_cycle(&mut radio, None, 511);
    assert!(matches!(
        action,
        acurite::controller::Action::IndicateError { blinks: 4 }
    ));
    assert!(log.borrow().is_empty());
}

#[test]
fn test_transmit_failure_cycle_emits_nothing() {
    // The transmitter is only driven on a transmit action; a sensor-failure
    // cycle leaves the line untouched.
    let log = Rc::new(RefCell::new(Vec::new()));
    let mut radio = Radio::new(
        RecordingPin { log: log.clone() },
        RecordingDelay { log: log.clone() },
    );
    let mut controller = acurite::controller::Controller::new(0xe6, 2000, 7, 31);
    let action = controller.sample_step(None, 511);
    if let acurite::controller::Action::Transmit { frame, repeats } = action {
        for _ in 0..repeats {
            radio.transmit(&frame);
        }
    }
    assert!(log.borrow().is_empty());
}

struct ScriptedBus {
    /// Bytes written, transaction by transaction, shared with the test.
    writes: Rc<RefCell<Vec<Vec<u8>>>>,
    /// Replies to two-byte register reads, consumed front first.
    replies: Vec<Result<[u8; 2], I2cError>>,
    /// Command bytes of the reads, shared with the test.
    commands: Rc<RefCell<Vec<u8>>>,
}

impl ScriptedBus {
    fn new(replies: Vec<Result<[u8; 2], I2cError>>) -> Self {
        ScriptedBus {
            writes: Rc::new(RefCell::new(Vec::new())),
            replies,
            commands: Rc::new(RefCell::new(Vec::new())),
        }
    }
}

impl I2cBus for ScriptedBus {
    fn write(&mut self, addr: u8, bytes: &[u8]) -> Result<(), I2cError> {
        assert_eq!(TMP102_ADDR, addr);
        self.writes.borrow_mut().push(bytes.to_vec());
        Ok(())
    }

    fn write_read2(&mut self, addr: u8, command: u8) -> Result<[u8; 2], I2cError> {
        assert_eq!(TMP102_ADDR, addr);
        self.commands.borrow_mut().push(command);
        self.replies.remove(0)
    }
}

struct NoDelay;

impl DelayMs for NoDelay {
    fn delay_ms(&mut self, _ms: u8) {}
}

#[test]
fn test_oneshot_reads_temperature() {
    // First poll still converting, second done, then the temperature.
    let bus = ScriptedBus::new(vec![Ok([0x00, 0x10]), Ok([0x80, 0x10]), Ok([0x0f, 0x80])]);
    let commands = bus.commands.clone();
    let mut sensor = Tmp102::new(bus, NoDelay);
    let config = Config::from_bits(CONFIG_OS | CONFIG_SD | CONFIG_EM);
    let reading = sensor.oneshot(config);
    assert_eq!(Ok(0x0f80), reading);
    // Two polls of the configuration register, then the temperature register.
    assert_eq!(vec![0x01, 0x01, 0x00], *commands.borrow());
}

#[test]
fn test_oneshot_requests_oneshot_shutdown() {
    let bus = ScriptedBus::new(vec![Ok([0x80, 0x00]), Ok([0x12, 0x34])]);
    let writes = bus.writes.clone();
    let mut sensor = Tmp102::new(bus, NoDelay);
    let reading = sensor.oneshot(Config::from_bits(CONFIG_EM));
    assert_eq!(Ok(0x1234), reading);
    // The request targets the configuration register with the one-shot and
    // shutdown flags folded into the written word, big-endian.
    let expected = (CONFIG_EM | CONFIG_OS | CONFIG_SD).to_be_bytes();
    assert_eq!(vec![vec![0x01, expected[0], expected[1]]], *writes.borrow());
}

#[test]
fn test_oneshot_bus_error_is_recoverable() {
    let bus = ScriptedBus::new(vec![Err(I2cError)]);
    let mut sensor = Tmp102::new(bus, NoDelay);
    assert_eq!(
        Err(SensorError::Bus(I2cError)),
        sensor.oneshot(Config::from_bits(CONFIG_EM))
    );
}

#[test]
fn test_oneshot_poll_budget_is_bounded() {
    // A sensor that never reports the conversion done ends in a timeout
    // error instead of an endless wait.
    let bus = ScriptedBus::new(vec![Ok([0x00, 0x00]); CONVERSION_POLL_LIMIT as usize + 8]);
    let mut sensor = Tmp102::new(bus, NoDelay);
    assert_eq!(
        Err(SensorError::Timeout),
        sensor.oneshot(Config::from_bits(CONFIG_EM))
    );
}

#[test]
fn test_sensor_config_ops() {
    let config = Config::from_bits(CONFIG_EM).union(Config::from_bits(CONFIG_SD));
    assert_eq!(CONFIG_EM | CONFIG_SD, config.bits());
    assert!(config.contains(Config::from_bits(CONFIG_EM)));
    assert!(!config.contains(Config::from_bits(CONFIG_OS)));
    let read_back = Config::from_bytes(config.bits().to_be_bytes());
    assert_eq!(config.bits(), read_back.bits());
}

#[test]
fn test_transmit_empty_payload_frames_only() {
    let log = Rc::new(RefCell::new(Vec::new()));
    let mut radio = Radio::new(
        RecordingPin { log: log.clone() },
        RecordingDelay { log: log.clone() },
    );
    radio.transmit(&[]);
    assert_eq!(vec![(500, 9000), (500, 500)], pulses(&log.borrow()));
}

#[test]
fn test_temperature_from_bytes() {
    assert_eq!(0x0f80, temperature_from_bytes([0x0f, 0x80]));
    assert_eq!(-32, temperature_from_bytes([0xff, 0xe0]));
    assert_eq!(0, temperature_from_bytes([0x00, 0x00]));
    assert_eq!(-1, temperature_from_bytes([0xff, 0xff]));
}

#[test]
fn test_watchdog_config_bits() {
    // Change-enable alone, then reset mode, the split prescaler field, and
    // the wake interrupt.
    assert_eq!(0x10, WdtConfig::new().bits());
    assert_eq!(0x18, WdtConfig::new().enable().bits());
    // One second: prescaler select 6 lands in the three low bits.
    assert_eq!(0x0e, WdtConfig::new().enable().timeout(Timeout::Ms1000).bits());
    // Eight seconds: select 9 splits over bit 5 and the low bits.
    assert_eq!(0x29, WdtConfig::new().enable().timeout(Timeout::Ms8000).bits());
    assert_eq!(
        0x4e,
        WdtConfig::new().enable().timeout(Timeout::Ms1000).interrupt().bits()
    );
}

#[test]
fn test_watchdog_configure_applies_bits() {
    let mut wd = Watchdog::new();
    wd.configure(WdtConfig::new().enable().timeout(Timeout::Ms1000).interrupt());
    assert_eq!(0x4e, wd.bits());
}

#[test]
fn test_sleep_registers() {
    let mut cpu = Cpu::new();
    sleep_enable(&mut cpu, SleepMode::PowerDown);
    assert_eq!(0b0000_0101, cpu.smcr);
    sleep_disable(&mut cpu);
    assert_eq!(0b0000_0100, cpu.smcr);
    sleep_enable(&mut cpu, SleepMode::AdcNoiseReduction);
    assert_eq!(0b0000_0011, cpu.smcr);
}

#[test]
fn test_disable_bod_in_sleep() {
    let mut cpu = Cpu::new();
    cpu.mcucr = 0b0000_0011;
    disable_bod_in_sleep(&mut cpu);
    // Disable flag set, change-enable flag clear, the rest untouched.
    assert_eq!(0b0100_0011, cpu.mcucr);
}

#[test]
fn test_disable_unused_hardware() {
    let mut cpu = Cpu::new();
    let mut ac = Ac::new();
    disable_unused_hardware(&mut cpu, &mut ac);
    assert_eq!(0x6c, cpu.prr);
    assert_eq!(0x80, ac.acsr);
}

#[test]
fn test_cpu_clock_divider() {
    let mut cpu = Cpu::new();
    // 16 MHz down to 1 MHz: divider 16, prescaler select 4.
    assert_eq!(Ok(()), cpu_clock_divider(16_000_000, 1_000_000, &mut cpu));
    assert_eq!(4, cpu.clkpr);
    // A target above the input clock is refused.
    assert_eq!(Err(()), cpu_clock_divider(1_000_000, 16_000_000, &mut cpu));
    // An uneven division is refused.
    assert_eq!(Err(()), cpu_clock_divider(16_000_000, 3_000_000, &mut cpu));
    // A divider above 256 is refused.
    assert_eq!(Err(()), cpu_clock_divider(16_000_000, 16_000, &mut cpu));
}

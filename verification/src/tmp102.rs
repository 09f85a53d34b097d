//! Driver for the TMP102 temperature sensor: one-shot conversions over a
//! blocking I2C bus.
//!
//! The bus and the delay source are trait parameters the board layer
//! implements, as nothing can be promised about what a bus returns. The pure
//! pieces — the configuration word, completion test and register decode —
//! carry exact contracts; the conversion poll is bounded, so a hung sensor
//! surfaces as an error instead of an endless wait.

use vstd::prelude::*;

verus! {

/// Bus address of the sensor.
pub const TMP102_ADDR: u8 = 0x48;

/// One-shot conversion flag of the configuration register.
pub const CONFIG_OS: u16 = 0x8000;

/// Converter resolution flags.
pub const CONFIG_R1: u16 = 0x4000;

pub const CONFIG_R2: u16 = 0x2000;

/// Fault-queue flags.
pub const CONFIG_F1: u16 = 0x1000;

pub const CONFIG_F2: u16 = 0x0800;

/// Alert polarity flag.
pub const CONFIG_POL: u16 = 0x0400;

/// Thermostat mode flag.
pub const CONFIG_TM: u16 = 0x0200;

/// Shutdown mode flag.
pub const CONFIG_SD: u16 = 0x0100;

/// Conversion rate flags.
pub const CONFIG_CR1: u16 = 0x0080;

pub const CONFIG_CR0: u16 = 0x0040;

/// Alert flag.
pub const CONFIG_AL: u16 = 0x0020;

/// Extended 13-bit mode flag.
pub const CONFIG_EM: u16 = 0x0010;

/// How many times the conversion poll rereads the configuration register
/// before giving up on the sensor.
pub const CONVERSION_POLL_LIMIT: u8 = 50;

/// Failure of an I2C transaction.
#[derive(Clone, Copy, PartialEq, Eq, Structural, Debug)]
pub struct I2cError;

/// Failure of a one-shot temperature read.
#[derive(Clone, Copy, PartialEq, Eq, Structural, Debug)]
pub enum SensorError {
    /// The bus reported an error.
    Bus(I2cError),
    /// The sensor never reported the conversion complete within the poll
    /// budget.
    Timeout,
}

/// Blocking I2C bus. The board layer implements this for its peripheral.
pub trait I2cBus {
    /// Write the bytes to the device at `addr`.
    fn write(&mut self, addr: u8, bytes: &[u8]) -> Result<(), I2cError>;

    /// Write the command byte to the device at `addr`, then read a two-byte
    /// register value back.
    fn write_read2(&mut self, addr: u8, command: u8) -> Result<[u8; 2], I2cError>;
}

/// Blocking millisecond delay. The board layer implements this for its clock.
pub trait DelayMs {
    fn delay_ms(&mut self, ms: u8);
}

/// The sensor's configuration register value.
#[derive(Clone, Copy)]
pub struct Config(u16);

impl View for Config {
    type V = u16;

    closed spec fn view(&self) -> u16 {
        self.0
    }
}

/// The big-endian register word two bus bytes spell.
pub open spec fn word_from_be(b0: u8, b1: u8) -> u16 {
    ((b0 as u16) << 8 | b1 as u16) as u16
}

impl Config {
    pub fn from_bits(bits: u16) -> (config: Self)
        ensures
            config@ == bits,
    {
        Config(bits)
    }

    /// The configuration a big-endian register read spells.
    pub fn from_bytes(bytes: [u8; 2]) -> (config: Self)
        ensures
            config@ == word_from_be(bytes[0], bytes[1]),
    {
        Config((bytes[0] as u16) << 8 | bytes[1] as u16)
    }

    /// Fold two configurations together.
    pub fn union(self, other: Self) -> (config: Self)
        ensures
            config@ == self@ | other@,
    {
        Config(self.0 | other.0)
    }

    /// Whether every flag of `flags` is set in this configuration.
    pub fn contains(&self, flags: Config) -> (r: bool)
        ensures
            r == (self@ & flags@ == flags@),
    {
        self.0 & flags.0 == flags.0
    }

    /// The raw register word.
    pub fn bits(&self) -> (bits: u16)
        ensures
            bits == self@,
    {
        self.0
    }
}

/// Sensor register addresses.
#[derive(Clone, Copy)]
enum Register {
    Temperature,
    Config,
}

/// The signed temperature register value two big-endian bytes spell.
pub open spec fn temp_value(b0: u8, b1: u8) -> int {
    if word_from_be(b0, b1) < 0x8000 {
        word_from_be(b0, b1) as int
    } else {
        word_from_be(b0, b1) as int - 0x10000
    }
}

/// Reassemble a big-endian temperature register read into its signed value.
pub fn temperature_from_bytes(bytes: [u8; 2]) -> (t: i16)
    ensures
        t as int == temp_value(bytes[0], bytes[1]),
{
    let word = (bytes[0] as u16) << 8 | bytes[1] as u16;
    proof {
        let b0 = bytes[0];
        let b1 = bytes[1];
        let w = ((b0 as u16) << 8 | b1 as u16) as u16;
        assert((#[verifier::truncate] (w as i16)) as int == if w < 0x8000 {
            w as int
        } else {
            w as int - 0x10000
        }) by (bit_vector);
    }
    #[verifier::truncate] (word as i16)
}

/// The sensor: an I2C bus and a delay source.
pub struct Tmp102<I, D> {
    i2c: I,
    delay: D,
}

impl<I: I2cBus, D: DelayMs> Tmp102<I, D> {
    pub fn new(i2c: I, delay: D) -> Self {
        Tmp102 { i2c, delay }
    }

    fn register_read(&mut self, reg: Register) -> Result<[u8; 2], I2cError> {
        let command: u8 = match reg {
            Register::Temperature => 0x00,
            Register::Config => 0x01,
        };
        self.i2c.write_read2(TMP102_ADDR, command)
    }

    fn register_write(&mut self, reg: Register, value: [u8; 2]) -> Result<(), I2cError> {
        let command: u8 = match reg {
            Register::Temperature => 0x00,
            Register::Config => 0x01,
        };
        let bytes: Vec<u8> = vec![command, value[0], value[1]];
        self.i2c.write(TMP102_ADDR, bytes.as_slice())
    }

    /// Run one conversion: request a one-shot with the given configuration,
    /// wait out the nominal conversion time, poll the configuration register
    /// until the sensor reports the conversion done (at most
    /// `CONVERSION_POLL_LIMIT` rereads), then read the temperature register.
    /// Bus failures and an exhausted poll budget are both recoverable errors.
    pub fn oneshot(&mut self, config: Config) -> Result<i16, SensorError> {
        let command = config.union(Config::from_bits(CONFIG_SD)).union(
            Config::from_bits(CONFIG_OS),
        );
        let word = command.bits();
        let request: [u8; 2] = [
            #[verifier::truncate] ((word >> 8) as u8),
            #[verifier::truncate] (word as u8),
        ];
        match self.register_write(Register::Config, request) {
            Ok(()) => (),
            Err(e) => {
                return Err(SensorError::Bus(e));
            },
        }
        // A single conversion typically takes 26 ms
        self.delay.delay_ms(30);
        let mut polls: u8 = 0;
        loop
            invariant
                polls < CONVERSION_POLL_LIMIT,
            decreases CONVERSION_POLL_LIMIT - polls,
        {
            let status = match self.register_read(Register::Config) {
                Ok(bytes) => Config::from_bytes(bytes),
                Err(e) => {
                    return Err(SensorError::Bus(e));
                },
            };
            if status.contains(Config::from_bits(CONFIG_OS)) {
                break;
            }
            polls = polls + 1;
            if polls == CONVERSION_POLL_LIMIT {
                return Err(SensorError::Timeout);
            }
            self.delay.delay_ms(2);
        }
        match self.register_read(Register::Temperature) {
            Ok(bytes) => Ok(temperature_from_bytes(bytes)),
            Err(e) => Err(SensorError::Bus(e)),
        }
    }
}

} // verus!

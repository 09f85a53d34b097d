//! Watchdog timer: the configuration-register bit builder and a register
//! model of the peripheral, including what the hardware does when a timeout
//! elapses.
//!
//! Register layout, as bits of the control register: the three low prescaler
//! bits, the reset-enable flag at bit 3, the change-enable flag at bit 4, the
//! fourth prescaler bit at bit 5, and the wake-interrupt-enable flag at
//! bit 6. The hardware auto-clears the wake-interrupt-enable flag when a
//! timeout fires with reset mode armed, so a sleep loop must set it again
//! after every wake or the following timeout resets the chip.

use vstd::prelude::*;

verus! {

/// Timeout periods the watchdog prescaler supports.
#[derive(Clone, Copy, PartialEq, Eq, Structural)]
pub enum Timeout {
    Ms16,
    Ms32,
    Ms64,
    Ms125,
    Ms250,
    Ms500,
    Ms1000,
    Ms2000,
    Ms4000,
    Ms8000,
}

/// Prescaler select value for a timeout period.
pub open spec fn timeout_prescaler(timeout: Timeout) -> u8 {
    match timeout {
        Timeout::Ms16 => 0,
        Timeout::Ms32 => 1,
        Timeout::Ms64 => 2,
        Timeout::Ms125 => 3,
        Timeout::Ms250 => 4,
        Timeout::Ms500 => 5,
        Timeout::Ms1000 => 6,
        Timeout::Ms2000 => 7,
        Timeout::Ms4000 => 8,
        Timeout::Ms8000 => 9,
    }
}

/// True when the wake-interrupt-enable flag is set in a control-register
/// value.
pub open spec fn wdie_set(bits: u8) -> bool {
    bits & 0x40 == 0x40
}

/// True when the reset-enable flag is set in a control-register value.
pub open spec fn wde_set(bits: u8) -> bool {
    bits & 0x08 == 0x08
}

/// A value for the watchdog control register, built up bit by bit. Starts
/// with the change-enable flag, which the configuration sequence requires.
#[derive(Clone, Copy)]
pub struct Config(u8);

impl View for Config {
    type V = u8;

    closed spec fn view(&self) -> u8 {
        self.0
    }
}

impl Config {
    pub fn new() -> (config: Self)
        ensures
            config@ == 0x10u8,
    {
        Config(0x10)
    }

    /// Arm the reset mode: an uncaught timeout resets the chip.
    pub fn enable(self) -> (config: Self)
        ensures
            config@ == self@ | 0x08u8,
    {
        Config(self.0 | 0x08)
    }

    /// Select the timeout period: clear the prescaler field and fold the
    /// select value into its split bit positions.
    pub fn timeout(self, timeout: Timeout) -> (config: Self)
        ensures
            config@ == (self@ & !0x17u8) | ((timeout_prescaler(timeout) & 0x08) << 2)
                | (timeout_prescaler(timeout) & 0x07),
    {
        let wdp: u8 = match timeout {
            Timeout::Ms16 => 0,
            Timeout::Ms32 => 1,
            Timeout::Ms64 => 2,
            Timeout::Ms125 => 3,
            Timeout::Ms250 => 4,
            Timeout::Ms500 => 5,
            Timeout::Ms1000 => 6,
            Timeout::Ms2000 => 7,
            Timeout::Ms4000 => 8,
            Timeout::Ms8000 => 9,
        };
        Config((self.0 & !0x17) | ((wdp & 0x08) << 2) | (wdp & 0x07))
    }

    /// Enable the wake interrupt.
    pub fn interrupt(self) -> (config: Self)
        ensures
            config@ == self@ | 0x40u8,
    {
        Config(self.0 | 0x40)
    }

    /// The raw register value this configuration writes.
    pub fn bits(&self) -> (bits: u8)
        ensures
            bits == self@,
    {
        self.0
    }
}

/// A skipped re-arm is caught by the fail-safe: when a timeout auto-clears
/// the wake-interrupt-enable flag, reset mode stays armed while the flag is
/// down, so the next timeout resets the chip instead of waking it.
pub proof fn lemma_skipped_rearm_resets(bits: u8)
    requires
        wdie_set(bits),
        wde_set(bits),
    ensures
        !wdie_set(bits & !0x40),
        wde_set(bits & !0x40),
{
    assert(((bits & !0x40) & 0x40 != 0x40) && ((bits & !0x40) & 0x08 == 0x08)) by (bit_vector)
        requires
            bits & 0x08 == 0x08,
    ;
}

/// What the hardware does when the watchdog timeout elapses.
#[derive(Clone, Copy, PartialEq, Eq, Structural, Debug)]
pub enum TimeoutOutcome {
    /// The wake interrupt fires and the CPU wakes.
    Interrupt,
    /// Nothing catches the timeout: the chip undergoes a hardware reset.
    Reset,
}

/// Register model of the watchdog peripheral.
pub struct Watchdog {
    wdtcr: u8,
}

impl View for Watchdog {
    type V = u8;

    closed spec fn view(&self) -> u8 {
        self.wdtcr
    }
}

impl Watchdog {
    pub fn new() -> (watchdog: Self)
        ensures
            watchdog@ == 0u8,
    {
        Watchdog { wdtcr: 0 }
    }

    /// Apply a configuration: the timed sequence opens change mode and then
    /// writes the configured value, which is what the register holds after.
    pub fn configure(&mut self, config: Config)
        ensures
            final(self)@ == config@,
    {
        // Enable watchdog configuration mode
        self.wdtcr = 0x10 | 0x08;
        // Apply config
        self.wdtcr = config.bits();
    }

    /// Arm reset mode with the given timeout period and the wake interrupt
    /// enabled.
    pub fn start(&mut self, timeout: Timeout)
        ensures
            final(self)@ == 0x08u8 | ((timeout_prescaler(timeout) & 0x08) << 2)
                | (timeout_prescaler(timeout) & 0x07),
            wde_set(final(self)@),
    {
        let config = Config::new().enable().timeout(timeout);
        proof {
            let wdp = timeout_prescaler(timeout);
            assert(wde_set(((0x10u8 | 0x08) & !0x17) | ((wdp & 0x08) << 2) | (wdp & 0x07))
                && (((0x10u8 | 0x08) & !0x17) | ((wdp & 0x08) << 2) | (wdp & 0x07))
                    == (0x08u8 | ((wdp & 0x08) << 2) | (wdp & 0x07))) by (bit_vector);
        }
        self.configure(config);
    }

    /// Set or clear the wake-interrupt-enable flag, leaving the rest of the
    /// register alone.
    pub fn interrupt(&mut self, enable: bool)
        ensures
            final(self)@ == if enable {
                old(self)@ | 0x40u8
            } else {
                old(self)@ & !0x40u8
            },
            wdie_set(final(self)@) == enable,
    {
        if enable {
            self.wdtcr = self.wdtcr | 0x40;
            proof {
                let b = old(self)@;
                assert((b | 0x40) & 0x40 == 0x40) by (bit_vector);
            }
        } else {
            self.wdtcr = self.wdtcr & !0x40;
            proof {
                let b = old(self)@;
                assert((b & !0x40) & 0x40 != 0x40) by (bit_vector);
            }
        }
    }

    /// The raw control-register value.
    pub fn bits(&self) -> (bits: u8)
        ensures
            bits == self@,
    {
        self.wdtcr
    }

    /// What happens when the timeout elapses on this register state: with the
    /// wake interrupt enabled the CPU is woken, and when reset mode is armed
    /// the hardware auto-clears the wake-interrupt-enable flag; without the
    /// wake interrupt, an armed reset mode resets the chip.
    pub fn timeout_fires(&mut self) -> (outcome: TimeoutOutcome)
        requires
            wdie_set(old(self)@) || wde_set(old(self)@),
        ensures
            wdie_set(old(self)@) ==> outcome == TimeoutOutcome::Interrupt,
            wdie_set(old(self)@) && wde_set(old(self)@) ==> final(self)@ == old(self)@
                & !0x40u8,
            wdie_set(old(self)@) && !wde_set(old(self)@) ==> final(self)@ == old(self)@,
            !wdie_set(old(self)@) ==> outcome == TimeoutOutcome::Reset && final(self)@ == old(
                self,
            )@,
    {
        let bits = self.wdtcr;
        if bits & 0x40 == 0x40 {
            if bits & 0x08 == 0x08 {
                self.wdtcr = bits & !0x40;
            }
            TimeoutOutcome::Interrupt
        } else {
            TimeoutOutcome::Reset
        }
    }
}

} // verus!

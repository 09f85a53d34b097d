//! Power management over a register model of the CPU's control registers:
//! sleep-mode selection, brown-out-detector shutdown for the sleep window,
//! powering down unused peripherals, and the system clock prescaler.
//!
//! Register layout: the sleep register holds sleep-enable at bit 0 and the
//! mode select at bits 1 to 3; the control register holds the brown-out
//! flags at bits 5 and 6; the prescaler register holds its change-enable
//! flag at bit 7 and the select value in the low nibble.

use vstd::prelude::*;
use vstd::std_specs::bits::u32_trailing_zeros;

verus! {

/// Sleep depths the sleep controller supports.
#[derive(Clone, Copy, PartialEq, Eq, Structural)]
pub enum SleepMode {
    Idle,
    AdcNoiseReduction,
    PowerDown,
}

/// Mode-select value of a sleep depth.
pub open spec fn sleep_mode_bits(mode: SleepMode) -> u8 {
    match mode {
        SleepMode::Idle => 0,
        SleepMode::AdcNoiseReduction => 1,
        SleepMode::PowerDown => 2,
    }
}

/// Register model of the CPU's power-related control registers.
pub struct Cpu {
    /// Sleep control register.
    pub smcr: u8,
    /// Control register holding the brown-out-detector flags.
    pub mcucr: u8,
    /// Peripheral power-reduction register.
    pub prr: u8,
    /// Clock prescaler register.
    pub clkpr: u8,
}

/// Register model of the analog comparator.
pub struct Ac {
    /// Comparator control and status register.
    pub acsr: u8,
}

impl Cpu {
    /// Reset state: every modeled register cleared.
    pub fn new() -> (cpu: Self)
        ensures
            cpu == (Cpu { smcr: 0, mcucr: 0, prr: 0, clkpr: 0 }),
    {
        Cpu { smcr: 0, mcucr: 0, prr: 0, clkpr: 0 }
    }
}

impl Ac {
    /// Reset state.
    pub fn new() -> (ac: Self)
        ensures
            ac == (Ac { acsr: 0 }),
    {
        Ac { acsr: 0 }
    }
}

/// The register that holds the sleep-enable and mode-select bits.
pub fn sleep_reg(cpu: &mut Cpu) -> (reg: &mut u8)
    ensures
        *reg == old(cpu).smcr,
        *final(cpu) == (Cpu { smcr: *final(reg), ..*old(cpu) }),
{
    &mut cpu.smcr
}

/// Select the sleep mode and set the sleep-enable bit, leaving the rest of
/// the register alone.
pub fn sleep_enable(cpu: &mut Cpu, mode: SleepMode)
    ensures
        *final(cpu) == (Cpu {
            smcr: (old(cpu).smcr & 0xf0) | (sleep_mode_bits(mode) << 1) | 0x01,
            ..*old(cpu)
        }),
{
    let bits: u8 = match mode {
        SleepMode::Idle => 0,
        SleepMode::AdcNoiseReduction => 1,
        SleepMode::PowerDown => 2,
    };
    let reg = sleep_reg(cpu);
    *reg = (*reg & 0xf0) | (bits << 1) | 0x01;
}

/// Clear the sleep-enable bit.
pub fn sleep_disable(cpu: &mut Cpu)
    ensures
        *final(cpu) == (Cpu { smcr: old(cpu).smcr & !0x01, ..*old(cpu) }),
{
    let reg = sleep_reg(cpu);
    *reg = *reg & !0x01;
}

/// Disable the brown-out detector for the next sleep window: the timed
/// sequence first sets both brown-out flags, then clears the change-enable
/// flag while keeping the disable flag set.
pub fn disable_bod_in_sleep(cpu: &mut Cpu)
    ensures
        *final(cpu) == (Cpu { mcucr: (old(cpu).mcucr | 0x40) & !0x20, ..*old(cpu) }),
{
    let mcucr = cpu.mcucr;
    cpu.mcucr = mcucr | 0x40 | 0x20;
    cpu.mcucr = (mcucr | 0x40) & !0x20;
}

/// Power down the peripherals this firmware never uses (the timers and the
/// serial peripheral interface) and switch the analog comparator off.
pub fn disable_unused_hardware(cpu: &mut Cpu, ac: &mut Ac)
    ensures
        *final(cpu) == (Cpu { prr: 0x6c, ..*old(cpu) }),
        final(ac).acsr == old(ac).acsr | 0x80,
{
    // Disable timers and SPI
    cpu.prr = 0x6c;
    // Disable analog comparator
    ac.acsr = ac.acsr | 0x80;
}

/// Set the CPU clock prescaler to reach a desired frequency from the input
/// clock. Refused when the target is above the input, does not divide it
/// evenly, or needs a divider above 256; the prescaler select written is the
/// number of trailing zero bits of the divider.
pub fn cpu_clock_divider(input_freq: u32, cpu_freq: u32, cpu: &mut Cpu) -> (r: Result<(), ()>)
    requires
        cpu_freq > 0,
    ensures
        r is Ok <==> cpu_freq <= input_freq && input_freq as int % cpu_freq as int == 0
            && input_freq as int / cpu_freq as int <= 256,
        r is Ok ==> *final(cpu) == (Cpu {
            clkpr: (u32_trailing_zeros((input_freq / cpu_freq) as u32) as u8) & 0x0f,
            ..*old(cpu)
        }),
        r is Err ==> *final(cpu) == *old(cpu),
{
    if cpu_freq > input_freq {
        return Err(());
    }
    let divider = input_freq / cpu_freq;
    let remainder = input_freq % cpu_freq;
    if remainder != 0 || divider > 256 {
        return Err(());
    }
    proof {
        vstd::std_specs::bits::axiom_u32_trailing_zeros(divider);
    }
    let clkps = divider.trailing_zeros() as u8;
    cpu.clkpr = 0x80;
    cpu.clkpr = clkps & 0x0f;
    Ok(())
}

} // verus!

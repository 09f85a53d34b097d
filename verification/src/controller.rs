//! The duty-cycle controller: the decisions of the firmware's main loop as a
//! state machine over plain values.
//!
//! One reporting cycle samples the sensor and the battery, transmits a frame
//! several times on success or indicates the failure on error, and then
//! sleeps through a fixed number of watchdog wakeups. The caller owns the
//! hardware: it hands each sensor reading and raw battery sample to
//! `sample_step`, performs the returned action, and calls `wake_step` after
//! every watchdog wake. A sensor failure never transmits, never changes the
//! node ID or the sleep schedule, and still proceeds to the sleep phase, so
//! the node retries on its regular interval.

use vstd::prelude::*;
use crate::codec::{convert_spec, convert_temperature};
use crate::message::{frame_spec, generate};
use crate::radio::{frame_pulses, repeated_pulses, DelayUs, OutputPin, Radio};
use crate::watchdog::{wdie_set, Watchdog};

verus! {

/// Battery-low threshold in millivolts.
pub const BATTERY_LOW_MV: u16 = 2000;

/// Watchdog periods slept between reporting cycles.
pub const WAKE_PERIODS: u8 = 31;

/// Times each frame is retransmitted per reporting cycle.
pub const TRANSMIT_REDUNDANCY: u8 = 7;

/// Blink count of the sensor-failure indication.
pub const ERROR_BLINKS: u8 = 4;

/// Numerator of the supply-voltage estimate: the 1.1 V bandgap reference in
/// millivolts, times the full 1023-step ADC scale.
pub const BANDGAP_NUMERATOR: u32 = 1125300;

/// The supply voltage in millivolts that a bandgap ADC sample spells,
/// truncated to the register width as the firmware computes it.
pub open spec fn battery_mv_spec(adc_value: u16) -> int {
    (BANDGAP_NUMERATOR as int / adc_value as int) % 0x10000
}

/// Estimate the supply voltage in millivolts from an ADC reading of the
/// bandgap reference against the supply.
pub fn battery_millivolts(adc_value: u16) -> (mv: u16)
    requires
        adc_value > 0,
    ensures
        mv == battery_mv_spec(adc_value),
{
    let raw = BANDGAP_NUMERATOR / adc_value as u32;
    proof {
        assert((#[verifier::truncate] (raw as u16)) == raw as int % 0x10000) by (bit_vector);
    }
    #[verifier::truncate] (raw as u16)
}

/// The node ID that a run of single-bit ADC samples composes: each sample
/// contributes its least significant bit, first sample foremost.
pub open spec fn id_fold(samples: Seq<u16>, k: nat) -> u8
    decreases k,
{
    if k == 0 {
        0
    } else {
        ((id_fold(samples, (k - 1) as nat) << 1) | ((samples[k - 1 as int] & 1) as u8)) as u8
    }
}

/// Compose the per-boot random node ID from eight single-bit reads of an
/// unconnected analog channel.
pub fn compose_random_id(samples: &[u16]) -> (id: u8)
    requires
        samples@.len() == 8,
    ensures
        id == id_fold(samples@, 8),
{
    let mut value: u8 = 0;
    let mut i: usize = 0;
    while i < 8
        invariant
            i <= 8,
            samples@.len() == 8,
            value == id_fold(samples@, i as nat),
        decreases 8 - i,
    {
        value = (value << 1) | ((samples[i] & 1) as u8);
        i = i + 1;
    }
    value
}

/// Where the controller stands in its cycle.
#[derive(Clone, Copy, PartialEq, Eq, Structural, Debug)]
pub enum Phase {
    /// Ready to sample and report.
    Sample,
    /// Sleeping through the remaining number of watchdog periods.
    Sleep { remaining: u8 },
}

/// What the caller must do after a sampling step.
#[derive(Clone, Copy, Debug)]
pub enum Action {
    /// Transmit the frame the given number of times.
    Transmit { frame: [u8; 4], repeats: u8 },
    /// Indicate a sensor failure with a bounded number of blinks; nothing is
    /// transmitted.
    IndicateError { blinks: u8 },
}

/// The duty-cycle controller's state: the per-boot node ID, the configured
/// schedule, and the current phase.
pub struct Controller {
    /// Node ID acquired once at boot.
    pub id: u8,
    /// Battery-low threshold in millivolts.
    pub battery_low_mv: u16,
    /// Times each frame is transmitted.
    pub redundancy: u8,
    /// Watchdog periods slept per cycle.
    pub sleep_periods: u8,
    /// Current phase.
    pub phase: Phase,
}

impl Controller {
    /// The schedule is sound: at least one sleep period per cycle, and a
    /// sleep phase never holds more periods than the schedule grants.
    pub open spec fn wf(self) -> bool {
        &&& self.sleep_periods >= 1
        &&& match self.phase {
            Phase::Sample => true,
            Phase::Sleep { remaining } => 1 <= remaining <= self.sleep_periods,
        }
    }

    /// A controller at boot: ready to sample on the given schedule.
    pub fn new(id: u8, battery_low_mv: u16, redundancy: u8, sleep_periods: u8) -> (c: Self)
        requires
            sleep_periods >= 1,
        ensures
            c == (Controller {
                id,
                battery_low_mv,
                redundancy,
                sleep_periods,
                phase: Phase::Sample,
            }),
            c.wf(),
    {
        Controller { id, battery_low_mv, redundancy, sleep_periods, phase: Phase::Sample }
    }

    /// One sampling step. A successful reading yields the frame to transmit,
    /// built from the node ID, the battery classification and the converted
    /// temperature; a failed reading yields the bounded error indication and
    /// transmits nothing. Either way the settings stay untouched and the
    /// controller proceeds to its full sleep phase.
    pub fn sample_step(&mut self, sensor_reading: Option<i16>, battery_adc: u16) -> (action:
        Action)
        requires
            old(self).wf(),
            old(self).phase == Phase::Sample,
            battery_adc > 0,
        ensures
            final(self).wf(),
            final(self).id == old(self).id,
            final(self).battery_low_mv == old(self).battery_low_mv,
            final(self).redundancy == old(self).redundancy,
            final(self).sleep_periods == old(self).sleep_periods,
            final(self).phase == (Phase::Sleep { remaining: old(self).sleep_periods }),
            sensor_reading matches Some(temp_reg) ==> action matches Action::Transmit {
                frame,
                repeats,
            } && frame@ == frame_spec(
                old(self).id,
                battery_mv_spec(battery_adc) > old(self).battery_low_mv,
                convert_spec(temp_reg) as i16,
            ) && repeats == old(self).redundancy,
            sensor_reading is None ==> action == (Action::IndicateError { blinks: ERROR_BLINKS }),
    {
        let action = match sensor_reading {
            Some(temp_reg) => {
                let temp = convert_temperature(temp_reg);
                let battery_mv = battery_millivolts(battery_adc);
                let frame = generate(self.id, battery_mv > self.battery_low_mv, temp);
                Action::Transmit { frame, repeats: self.redundancy }
            },
            None => Action::IndicateError { blinks: ERROR_BLINKS },
        };
        self.phase = Phase::Sleep { remaining: self.sleep_periods };
        action
    }

    /// One full reporting step against the transmitter: sample, then put the
    /// frame on the air the configured number of times. A failed reading
    /// leaves the radio's emission exactly as it was — the transmitter is
    /// provably not invoked — while the cycle still proceeds to sleep on the
    /// unchanged schedule.
    pub fn report_cycle<P: OutputPin, D: DelayUs>(
        &mut self,
        radio: &mut Radio<P, D>,
        sensor_reading: Option<i16>,
        battery_adc: u16,
    ) -> (action: Action)
        requires
            old(self).wf(),
            old(self).phase == Phase::Sample,
            battery_adc > 0,
        ensures
            final(self).wf(),
            final(self).id == old(self).id,
            final(self).battery_low_mv == old(self).battery_low_mv,
            final(self).redundancy == old(self).redundancy,
            final(self).sleep_periods == old(self).sleep_periods,
            final(self).phase == (Phase::Sleep { remaining: old(self).sleep_periods }),
            sensor_reading is None ==> action == (Action::IndicateError {
                blinks: ERROR_BLINKS,
            }) && final(radio).emitted() == old(radio).emitted(),
            sensor_reading matches Some(temp_reg) ==> action matches Action::Transmit {
                frame,
                repeats,
            } && frame@ == frame_spec(
                old(self).id,
                battery_mv_spec(battery_adc) > old(self).battery_low_mv,
                convert_spec(temp_reg) as i16,
            ) && repeats == old(self).redundancy && final(radio).emitted() == old(
                radio,
            ).emitted() + repeated_pulses(frame_pulses(frame@), old(self).redundancy as nat),
    {
        let ghost emitted_before = radio.emitted();
        let action = self.sample_step(sensor_reading, battery_adc);
        match action {
            Action::Transmit { frame, repeats } => {
                proof {
                    assert(emitted_before + repeated_pulses(frame_pulses(frame@), 0)
                        =~= emitted_before);
                }
                let mut i: u8 = 0;
                while i < repeats
                    invariant
                        i <= repeats,
                        radio.emitted() == emitted_before + repeated_pulses(
                            frame_pulses(frame@),
                            i as nat,
                        ),
                    decreases repeats - i,
                {
                    radio.transmit(vstd::array::array_as_slice(&frame));
                    i = i + 1;
                    proof {
                        assert(radio.emitted() =~= emitted_before + repeated_pulses(
                            frame_pulses(frame@),
                            i as nat,
                        ));
                    }
                }
            },
            Action::IndicateError { .. } => {},
        }
        action
    }

    /// One watchdog wake during the sleep phase. The wake-interrupt-enable
    /// flag is always set again before anything else, since the hardware
    /// auto-clears it when the timeout fires; a wake that skipped this would
    /// turn the next timeout into a hardware reset. Returns whether the sleep
    /// phase is over and the next cycle should sample.
    pub fn wake_step(&mut self, watchdog: &mut Watchdog) -> (sleep_done: bool)
        requires
            old(self).wf(),
            old(self).phase matches Phase::Sleep { .. },
        ensures
            final(self).wf(),
            final(self).id == old(self).id,
            final(self).battery_low_mv == old(self).battery_low_mv,
            final(self).redundancy == old(self).redundancy,
            final(self).sleep_periods == old(self).sleep_periods,
            final(watchdog)@ == old(watchdog)@ | 0x40u8,
            wdie_set(final(watchdog)@),
            old(self).phase matches Phase::Sleep { remaining } ==> {
                &&& remaining > 1 ==> final(self).phase == (Phase::Sleep {
                    remaining: (remaining - 1) as u8,
                }) && !sleep_done
                &&& remaining == 1 ==> final(self).phase == Phase::Sample && sleep_done
            },
    {
        // The hardware cleared the wake-interrupt flag with the timeout that
        // woke us; set it again before the next timeout can fire.
        watchdog.interrupt(true);
        match self.phase {
            Phase::Sleep { remaining } => {
                if remaining <= 1 {
                    self.phase = Phase::Sample;
                    true
                } else {
                    self.phase = Phase::Sleep { remaining: remaining - 1 };
                    false
                }
            },
            Phase::Sample => false,
        }
    }
}

} // verus!

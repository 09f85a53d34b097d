//! On-off-keyed transmitter: turns the bits of a frame into a timed sequence
//! of pulses on a single output line.
//!
//! Bit values are carried purely by pulse timing, so the emission path is a
//! straight blocking sequence of pin writes and delays. The pulses a radio
//! has emitted are tracked in ghost state, and `transmit` is proved to emit
//! exactly the start pulse, one pulse per frame bit most-significant-bit
//! first, and the stop pulse.

use vstd::prelude::*;
use crate::checksum::data_bit;

verus! {

/// Microseconds the line is held high in every pulse.
pub const PULSE_ON_US: u16 = 500;

/// Low time of the pulse that opens a frame.
pub const START_OFF_US: u16 = 9000;

/// Low time of the pulse that encodes a zero bit.
pub const ZERO_OFF_US: u16 = 2000;

/// Low time of the pulse that encodes a one bit.
pub const ONE_OFF_US: u16 = 4000;

/// Low time of the pulse that closes a frame.
pub const STOP_OFF_US: u16 = 500;

/// The radio output line. The board layer implements this for its pin type.
pub trait OutputPin {
    fn set_high(&mut self);

    fn set_low(&mut self);
}

/// Blocking microsecond delay. The board layer implements this for its clock.
pub trait DelayUs {
    fn delay_us(&mut self, us: u16);
}

/// One pulse: the line is held high for `on_us` microseconds, then low for
/// `off_us` microseconds.
pub struct Pulse {
    pub on_us: u16,
    pub off_us: u16,
}

/// The pulse that opens a frame.
pub open spec fn start_pulse() -> Pulse {
    Pulse { on_us: PULSE_ON_US, off_us: START_OFF_US }
}

/// The pulse that encodes a zero bit.
pub open spec fn zero_pulse() -> Pulse {
    Pulse { on_us: PULSE_ON_US, off_us: ZERO_OFF_US }
}

/// The pulse that encodes a one bit.
pub open spec fn one_pulse() -> Pulse {
    Pulse { on_us: PULSE_ON_US, off_us: ONE_OFF_US }
}

/// The pulse that closes a frame.
pub open spec fn stop_pulse() -> Pulse {
    Pulse { on_us: PULSE_ON_US, off_us: STOP_OFF_US }
}

/// The pulse that encodes one bit.
pub open spec fn bit_pulse(bit: bool) -> Pulse {
    if bit {
        one_pulse()
    } else {
        zero_pulse()
    }
}

/// Pulses for the first `k` bits of the payload, most-significant-bit first.
pub open spec fn bit_pulses(data: Seq<u8>, k: nat) -> Seq<Pulse>
    decreases k,
{
    if k == 0 {
        Seq::empty()
    } else {
        bit_pulses(data, (k - 1) as nat).push(bit_pulse(data_bit(data, k - 1)))
    }
}

/// The whole pulse train of one frame: start, every bit, stop.
pub open spec fn frame_pulses(data: Seq<u8>) -> Seq<Pulse> {
    seq![start_pulse()] + bit_pulses(data, (data.len() * 8) as nat) + seq![stop_pulse()]
}

/// `n` back-to-back copies of a pulse train, as the redundant retransmissions
/// of one frame put on the air.
pub open spec fn repeated_pulses(pulses: Seq<Pulse>, n: nat) -> Seq<Pulse>
    decreases n,
{
    if n == 0 {
        Seq::empty()
    } else {
        repeated_pulses(pulses, (n - 1) as nat) + pulses
    }
}

/// The transmitter: an output line and a delay source.
pub struct Radio<P, D> {
    pin: P,
    delay: D,
    history: Ghost<Seq<Pulse>>,
}

impl<P: OutputPin, D: DelayUs> Radio<P, D> {
    /// All pulses this radio has emitted since construction.
    pub closed spec fn emitted(self) -> Seq<Pulse> {
        self.history@
    }

    pub fn new(pin: P, delay: D) -> (radio: Self)
        ensures
            radio.emitted() == Seq::<Pulse>::empty(),
    {
        Radio { pin, delay, history: Ghost(Seq::empty()) }
    }

    fn pulse(&mut self, on_us: u16, off_us: u16)
        ensures
            final(self).emitted() == old(self).emitted().push(Pulse { on_us, off_us }),
    {
        self.pin.set_high();
        self.delay.delay_us(on_us);
        self.pin.set_low();
        self.delay.delay_us(off_us);
        self.history = Ghost(self.history@.push(Pulse { on_us, off_us }));
    }

    fn start(&mut self)
        ensures
            final(self).emitted() == old(self).emitted().push(start_pulse()),
    {
        self.pulse(PULSE_ON_US, START_OFF_US);
    }

    fn zero(&mut self)
        ensures
            final(self).emitted() == old(self).emitted().push(zero_pulse()),
    {
        self.pulse(PULSE_ON_US, ZERO_OFF_US);
    }

    fn one(&mut self)
        ensures
            final(self).emitted() == old(self).emitted().push(one_pulse()),
    {
        self.pulse(PULSE_ON_US, ONE_OFF_US);
    }

    fn stop(&mut self)
        ensures
            final(self).emitted() == old(self).emitted().push(stop_pulse()),
    {
        self.pulse(PULSE_ON_US, STOP_OFF_US);
    }

    /// Emit one frame: the start pulse, a pulse per payload bit from the most
    /// significant bit of each byte in order, and the stop pulse.
    pub fn transmit(&mut self, data: &[u8])
        requires
            data@.len() * 8 < usize::MAX,
        ensures
            final(self).emitted() == old(self).emitted() + frame_pulses(data@),
    {
        let ghost orig = self.history@;
        self.start();
        let mut byte_idx: usize = 0;
        while byte_idx < data.len()
            invariant
                byte_idx <= data@.len(),
                data@.len() * 8 < usize::MAX,
                self.emitted() == orig + seq![start_pulse()]
                    + bit_pulses(data@, (byte_idx * 8) as nat),
            decreases data@.len() - byte_idx,
        {
            let byte = data[byte_idx];
            let mut bit_idx: usize = 0;
            while bit_idx < 8
                invariant
                    bit_idx <= 8,
                    byte_idx < data@.len(),
                    data@.len() * 8 < usize::MAX,
                    byte == data@[byte_idx as int],
                    self.emitted() == orig + seq![start_pulse()]
                        + bit_pulses(data@, (byte_idx * 8 + bit_idx) as nat),
                decreases 8 - bit_idx,
            {
                let bit = (byte >> (7 - bit_idx) as u8) & 1 == 1;
                proof {
                    let p = byte_idx * 8 + bit_idx;
                    assert(p / 8 == byte_idx && p % 8 == bit_idx) by (nonlinear_arith)
                        requires
                            p == byte_idx * 8 + bit_idx,
                            bit_idx < 8,
                    ;
                }
                if bit {
                    self.one();
                } else {
                    self.zero();
                }
                bit_idx = bit_idx + 1;
            }
            byte_idx = byte_idx + 1;
        }
        self.stop();
        proof {
            assert(self.emitted() =~= orig + frame_pulses(data@));
        }
    }
}

} // verus!

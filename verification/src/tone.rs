//! The plain oscillator plugin, whose host sets its frequency and sample rate
//! directly.
use vstd::prelude::*;
use crate::plugin::ZERO;

verus! {

/// The bit pattern of `48000.0`.
pub const DEFAULT_SAMPLE_RATE: u32 = 0x473b_8000;

/// The state of the oscillator: phase, frequency and sample rate, each as the bit
/// pattern of a single-precision number.
#[derive(Clone, Copy, Debug, PartialEq, Eq, Structural)]
pub struct Component {
    pub phase: u32,
    pub frequency: u32,
    pub sample_rate: u32,
}

impl Component {
    /// The state the oscillator starts in: phase 0, frequency 0, 48000 Hz.
    pub open spec fn initial() -> Component {
        Component { phase: ZERO, frequency: ZERO, sample_rate: DEFAULT_SAMPLE_RATE }
    }

    /// A new oscillator in its initial state.
    pub fn new() -> (c: Component)
        ensures
            c == Component::initial(),
    {
        Component { phase: ZERO, frequency: ZERO, sample_rate: DEFAULT_SAMPLE_RATE }
    }

    /// Sets the frequency; the rest is kept.
    pub fn set_freq(&mut self, freq: u32)
        ensures
            *final(self) == (Component { frequency: freq, ..*old(self) }),
    {
        self.frequency = freq;
    }

    /// Sets the sample rate; the rest is kept.
    pub fn set_sr(&mut self, sr: u32)
        ensures
            *final(self) == (Component { sample_rate: sr, ..*old(self) }),
    {
        self.sample_rate = sr;
    }

    /// Records the phase reached after a block of samples; the rest is kept.
    pub fn set_phase(&mut self, phase: u32)
        ensures
            *final(self) == (Component { phase: phase, ..*old(self) }),
    {
        self.phase = phase;
    }
}


/// A fresh oscillator is at phase 0, frequency 0 and 48000 Hz sample rate.
pub proof fn lemma_initial_state()
    ensures
        Component::initial() == (Component {
            phase: 0x0000_0000,
            frequency: 0x0000_0000,
            sample_rate: 0x473b_8000,
        }),
{
}

} // verus!

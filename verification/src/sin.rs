//! The sine oscillator plugin: its parameters and how keys set them.
use vstd::prelude::*;
use crate::plugin::{descs, desc, param_info, ParamDesc, ParamInfo, ONE, ZERO};
use crate::text::same_text;

verus! {

/// The bit pattern of `440.0`.
pub const DEFAULT_FREQUENCY: u32 = 0x43dc_0000;

/// The bit pattern of `48000.0`.
pub const DEFAULT_SAMPLE_RATE: u32 = 0x473b_8000;

/// The bit pattern of `20.0`.
pub const MIN_FREQUENCY: u32 = 0x41a0_0000;

/// The bit pattern of `20000.0`.
pub const MAX_FREQUENCY: u32 = 0x469c_4000;

/// A parameter of the oscillator.
#[derive(Clone, Copy, Debug, PartialEq, Eq, Structural)]
pub enum SinParam {
    Phase,
    Frequency,
    SampleRate,
    Amplitude,
}

/// The parameter that `key` sets, if any: `phase`, `frequency` or `freq`,
/// `sample_rate` or `sr`, `amplitude` or `amp`.
pub open spec fn sin_key(key: Seq<char>) -> Option<SinParam> {
    if key == "phase"@ {
        Some(SinParam::Phase)
    } else if key == "frequency"@ || key == "freq"@ {
        Some(SinParam::Frequency)
    } else if key == "sample_rate"@ || key == "sr"@ {
        Some(SinParam::SampleRate)
    } else if key == "amplitude"@ || key == "amp"@ {
        Some(SinParam::Amplitude)
    } else {
        None
    }
}

/// The parameters that the oscillator offers to its host.
pub open spec fn sin_advertised() -> Seq<ParamDesc> {
    seq![
        desc("frequency"@, MIN_FREQUENCY, MAX_FREQUENCY, DEFAULT_FREQUENCY),
        desc("amplitude"@, ZERO, ONE, ONE),
    ]
}

/// The state of the sine oscillator: the phase it has reached and the values of its
/// parameters, each as the bit pattern of a single-precision number.
#[derive(Clone, Copy, Debug, PartialEq, Eq, Structural)]
pub struct Component {
    pub phase: u32,
    pub frequency: u32,
    pub sample_rate: u32,
    pub amplitude: u32,
}

impl Component {
    /// The state the oscillator starts in: phase 0, 440 Hz, 48000 Hz, amplitude 1.
    pub open spec fn initial() -> Component {
        Component {
            phase: ZERO,
            frequency: DEFAULT_FREQUENCY,
            sample_rate: DEFAULT_SAMPLE_RATE,
            amplitude: ONE,
        }
    }

    /// The value of parameter `p`.
    pub open spec fn param(self, p: SinParam) -> u32 {
        match p {
            SinParam::Phase => self.phase,
            SinParam::Frequency => self.frequency,
            SinParam::SampleRate => self.sample_rate,
            SinParam::Amplitude => self.amplitude,
        }
    }

    /// This state with parameter `p` set to `v`.
    pub open spec fn with_param(self, p: SinParam, v: u32) -> Component {
        match p {
            SinParam::Phase => Component { phase: v, ..self },
            SinParam::Frequency => Component { frequency: v, ..self },
            SinParam::SampleRate => Component { sample_rate: v, ..self },
            SinParam::Amplitude => Component { amplitude: v, ..self },
        }
    }

    /// This state after setting `key` to `v`: unchanged where the key is unknown.
    pub open spec fn after_set(self, key: Seq<char>, v: u32) -> Component {
        match sin_key(key) {
            Some(p) => self.with_param(p, v),
            None => self,
        }
    }

    /// A new oscillator in its initial state.
    pub fn new() -> (c: Component)
        ensures
            c == Component::initial(),
    {
        Component {
            phase: ZERO,
            frequency: DEFAULT_FREQUENCY,
            sample_rate: DEFAULT_SAMPLE_RATE,
            amplitude: ONE,
        }
    }

    /// The parameter that `key` names, if any.
    pub fn key_param(key: &str) -> (p: Option<SinParam>)
        ensures
            p == sin_key(key@),
    {
        if same_text(key, "phase") {
            Some(SinParam::Phase)
        } else if same_text(key, "frequency") || same_text(key, "freq") {
            Some(SinParam::Frequency)
        } else if same_text(key, "sample_rate") || same_text(key, "sr") {
            Some(SinParam::SampleRate)
        } else if same_text(key, "amplitude") || same_text(key, "amp") {
            Some(SinParam::Amplitude)
        } else {
            None
        }
    }

    /// The value of parameter `p`.
    pub fn get(&self, p: SinParam) -> (v: u32)
        ensures
            v == self.param(p),
    {
        match p {
            SinParam::Phase => self.phase,
            SinParam::Frequency => self.frequency,
            SinParam::SampleRate => self.sample_rate,
            SinParam::Amplitude => self.amplitude,
        }
    }

    /// Sets the parameter that `key` names to `value`. Returns whether the key is
    /// known; an unknown key changes nothing.
    pub fn set(&mut self, key: &str, value: u32) -> (known: bool)
        ensures
            known == (sin_key(key@) is Some),
            *final(self) == old(self).after_set(key@, value),
    {
        match Component::key_param(key) {
            Some(SinParam::Phase) => {
                self.phase = value;
                true
            },
            Some(SinParam::Frequency) => {
                self.frequency = value;
                true
            },
            Some(SinParam::SampleRate) => {
                self.sample_rate = value;
                true
            },
            Some(SinParam::Amplitude) => {
                self.amplitude = value;
                true
            },
            None => false,
        }
    }

    /// The parameters offered to the host: frequency from 20 to 20000 Hz (440 by
    /// default) and amplitude from 0 to 1 (1 by default).
    pub fn get_params() -> (out: Vec<ParamInfo>)
        ensures
            descs(out@) == sin_advertised(),
    {
        let mut out: Vec<ParamInfo> = Vec::new();
        out.push(param_info("frequency", MIN_FREQUENCY, MAX_FREQUENCY, DEFAULT_FREQUENCY));
        out.push(param_info("amplitude", ZERO, ONE, ONE));
        assert(descs(out@) =~= sin_advertised());
        out
    }
}


/// Every parameter that the oscillator offers is one that `set` accepts under the
/// offered name, and its offered default is the value the oscillator starts with.
pub proof fn lemma_offered_params_are_settable()
    ensures
        forall|i: int|
            0 <= i < sin_advertised().len() ==> {
                &&& #[trigger] sin_key(sin_advertised()[i].name) is Some
                &&& Component::initial().param(sin_key(sin_advertised()[i].name)->0)
                    == sin_advertised()[i].default
            },
{
    reveal_strlit("phase");
    reveal_strlit("frequency");
    reveal_strlit("freq");
    reveal_strlit("amplitude");
    reveal_strlit("sample_rate");
    reveal_strlit("sr");
    assert("frequency"@.len() == 9);
    assert("amplitude"@.len() == 9);
    assert("phase"@.len() == 5);
    assert("freq"@.len() == 4);
    assert("sample_rate"@.len() == 11);
    assert("sr"@.len() == 2);
    assert("frequency"@[0] != "amplitude"@[0]);
    assert(sin_key("frequency"@) == Some(SinParam::Frequency));
    assert(sin_key("amplitude"@) == Some(SinParam::Amplitude));
}

/// After a known key is set to `v`, its parameter reads `v` and every other
/// parameter keeps its value; an unknown key changes nothing; of two settings of
/// one key the later one counts.
pub proof fn lemma_set_then_get(c: Component, key: Seq<char>, v: u32, w: u32, q: SinParam)
    ensures
        sin_key(key) is Some ==> c.after_set(key, v).param(sin_key(key)->0) == v,
        sin_key(key) is Some && q != sin_key(key)->0 ==> c.after_set(key, v).param(q) == c.param(q),
        sin_key(key) is None ==> c.after_set(key, v) == c,
        c.after_set(key, v).after_set(key, w) == c.after_set(key, w),
{
}


/// The key table: `phase` sets the phase, `frequency` and its alias `freq` the
/// frequency, `sample_rate` and `sr` the sample rate, `amplitude` and `amp` the
/// amplitude.
pub proof fn lemma_key_table()
    ensures
        sin_advertised()[0].name == "frequency"@,
        sin_advertised()[1].name == "amplitude"@,
        sin_key("phase"@) == Some(SinParam::Phase),
        sin_key("frequency"@) == Some(SinParam::Frequency),
        sin_key("freq"@) == Some(SinParam::Frequency),
        sin_key("sample_rate"@) == Some(SinParam::SampleRate),
        sin_key("sr"@) == Some(SinParam::SampleRate),
        sin_key("amplitude"@) == Some(SinParam::Amplitude),
        sin_key("amp"@) == Some(SinParam::Amplitude),
{
    reveal_strlit("phase");
    reveal_strlit("frequency");
    reveal_strlit("freq");
    reveal_strlit("sample_rate");
    reveal_strlit("sr");
    reveal_strlit("amplitude");
    reveal_strlit("amp");
    assert("phase"@.len() == 5 && "frequency"@.len() == 9 && "freq"@.len() == 4);
    assert("sample_rate"@.len() == 11 && "sr"@.len() == 2);
    assert("amplitude"@.len() == 9 && "amp"@.len() == 3);
    assert("frequency"@[0] != "amplitude"@[0]);
}

/// Each offered range is a proper interval of non-negative numbers (whose bit
/// patterns order as the numbers do): frequency from 20 to 20000, amplitude from 0
/// to 1, with defaults 440 and 1; the offered names are distinct; and each offered
/// default lies in its range. A fresh oscillator is at phase 0, 440 Hz, 48000 Hz
/// sample rate and amplitude 1.
pub proof fn lemma_offered_ranges()
    ensures
        Component::initial() == (Component {
            phase: 0x0000_0000,
            frequency: 0x43dc_0000,
            sample_rate: 0x473b_8000,
            amplitude: 0x3f80_0000,
        }),
        sin_advertised()[0].min == 0x41a0_0000,  // 20.0
        sin_advertised()[0].max == 0x469c_4000,  // 20000.0
        sin_advertised()[0].default == 0x43dc_0000,  // 440.0
        sin_advertised()[1].min == 0x0000_0000,  // 0.0
        sin_advertised()[1].max == 0x3f80_0000,  // 1.0
        sin_advertised()[1].default == 0x3f80_0000,  // 1.0
        forall|i: int|
            #![trigger sin_advertised()[i]]
            0 <= i < sin_advertised().len() ==> sin_advertised()[i].min < sin_advertised()[i].max
                < 0x8000_0000 && sin_advertised()[i].min <= sin_advertised()[i].default
                <= sin_advertised()[i].max,
        sin_advertised()[0].name != sin_advertised()[1].name,
{
    reveal_strlit("frequency");
    reveal_strlit("amplitude");
    assert("frequency"@[0] != "amplitude"@[0]);
}

} // verus!

//! The techno plugin: its parameters, the engine commands that setting them sends,
//! and the engine code made from them.
use vstd::prelude::*;
use crate::plugin::{descs, desc, param_info, EngineCommand, ParamDesc, ParamInfo, ONE, ZERO};
use crate::text::{
    free_of, lemma_replace_absent, lemma_replace_avoids, lemma_replace_single, occurs_at, replace,
    replaced, same_text,
};

verus! {

/// The bit pattern of `0.6`.
pub const DEFAULT_T2_AMP: u32 = 0x3f19_999a;

/// The bit pattern of `0.05`.
pub const DEFAULT_T3_AMP: u32 = 0x3d4c_cccd;

/// The bit pattern of `120.0`.
pub const DEFAULT_BPM: u32 = 0x42f0_0000;

/// The bit pattern of `40.0`.
pub const MIN_BPM: u32 = 0x4220_0000;

/// The bit pattern of `360.0`.
pub const MAX_BPM: u32 = 0x43b4_0000;

/// A track amplitude of the techno plugin.
#[derive(Clone, Copy, Debug, PartialEq, Eq, Structural)]
pub enum TechnoParam {
    T1Amp,
    T2Amp,
    T3Amp,
}

/// The track amplitude that `key` sets, if any.
pub open spec fn techno_key(key: Seq<char>) -> Option<TechnoParam> {
    if key == "t1_amp"@ {
        Some(TechnoParam::T1Amp)
    } else if key == "t2_amp"@ {
        Some(TechnoParam::T2Amp)
    } else if key == "t3_amp"@ {
        Some(TechnoParam::T3Amp)
    } else {
        None
    }
}

/// What setting `key` to `v` asks of the engine: a new sample rate (`sample_rate`
/// or `sr`), a new tempo (`bpm`), new code made from the amplitudes, or nothing.
pub open spec fn techno_command(key: Seq<char>, v: u32) -> EngineCommand {
    if key == "sample_rate"@ || key == "sr"@ {
        EngineCommand::SetSampleRate(v)
    } else if key == "bpm"@ {
        EngineCommand::SetBpm(v)
    } else if techno_key(key) is Some {
        EngineCommand::UpdateCode
    } else {
        EngineCommand::Ignore
    }
}

/// The engine code made from `code` by putting the three amplitudes in place of
/// `$t1_amp`, `$t2_amp` and `$t3_amp`, in that order.
pub open spec fn techno_code(code: Seq<char>, t1: Seq<char>, t2: Seq<char>, t3: Seq<char>) -> Seq<
    char,
> {
    replaced(replaced(replaced(code, "$t1_amp"@, t1), "$t2_amp"@, t2), "$t3_amp"@, t3)
}

/// Makes the engine code from the template `code` and the texts of the three track
/// amplitudes.
pub fn make_code(code: &str, t1: &str, t2: &str, t3: &str) -> (out: String)
    ensures
        out@ == techno_code(code@, t1@, t2@, t3@),
{
    let c1 = replace(code, "$t1_amp", t1);
    let c2 = replace(c1.as_str(), "$t2_amp", t2);
    replace(c2.as_str(), "$t3_amp", t3)
}

/// The parameters that the techno plugin offers to its host.
pub open spec fn techno_advertised() -> Seq<ParamDesc> {
    seq![
        desc("bpm"@, MIN_BPM, MAX_BPM, DEFAULT_BPM),
        desc("t1_amp"@, ZERO, ONE, ONE),
        desc("t2_amp"@, ZERO, ONE, DEFAULT_T2_AMP),
        desc("t3_amp"@, ZERO, ONE, DEFAULT_T3_AMP),
    ]
}

/// The parameter values of the techno plugin, as bit patterns of single-precision
/// numbers. The tempo goes to the engine directly: `bpm` keeps its initial value.
#[derive(Clone, Copy, Debug, PartialEq, Eq, Structural)]
pub struct Component {
    pub t1_amp: u32,
    pub t2_amp: u32,
    pub t3_amp: u32,
    pub bpm: u32,
}

impl Component {
    /// The values the plugin starts with: amplitudes 1, 0.6 and 0.05, 120 beats per
    /// minute.
    pub open spec fn initial() -> Component {
        Component { t1_amp: ONE, t2_amp: DEFAULT_T2_AMP, t3_amp: DEFAULT_T3_AMP, bpm: DEFAULT_BPM }
    }

    /// The value of amplitude `p`.
    pub open spec fn param(self, p: TechnoParam) -> u32 {
        match p {
            TechnoParam::T1Amp => self.t1_amp,
            TechnoParam::T2Amp => self.t2_amp,
            TechnoParam::T3Amp => self.t3_amp,
        }
    }

    /// These values with amplitude `p` set to `v`.
    pub open spec fn with_param(self, p: TechnoParam, v: u32) -> Component {
        match p {
            TechnoParam::T1Amp => Component { t1_amp: v, ..self },
            TechnoParam::T2Amp => Component { t2_amp: v, ..self },
            TechnoParam::T3Amp => Component { t3_amp: v, ..self },
        }
    }

    /// These values after setting `key` to `v`: unchanged unless the key names an
    /// amplitude.
    pub open spec fn after_set(self, key: Seq<char>, v: u32) -> Component {
        match techno_key(key) {
            Some(p) => self.with_param(p, v),
            None => self,
        }
    }

    /// A plugin with its initial values.
    pub fn new() -> (c: Component)
        ensures
            c == Component::initial(),
    {
        Component { t1_amp: ONE, t2_amp: DEFAULT_T2_AMP, t3_amp: DEFAULT_T3_AMP, bpm: DEFAULT_BPM }
    }

    /// The amplitude that `key` names, if any.
    pub fn key_param(key: &str) -> (p: Option<TechnoParam>)
        ensures
            p == techno_key(key@),
    {
        if same_text(key, "t1_amp") {
            Some(TechnoParam::T1Amp)
        } else if same_text(key, "t2_amp") {
            Some(TechnoParam::T2Amp)
        } else if same_text(key, "t3_amp") {
            Some(TechnoParam::T3Amp)
        } else {
            None
        }
    }

    /// The value of amplitude `p`.
    pub fn get(&self, p: TechnoParam) -> (v: u32)
        ensures
            v == self.param(p),
    {
        match p {
            TechnoParam::T1Amp => self.t1_amp,
            TechnoParam::T2Amp => self.t2_amp,
            TechnoParam::T3Amp => self.t3_amp,
        }
    }

    /// Sets `key` to `value` and returns what the engine must do: take the new
    /// sample rate or tempo, rebuild from new code, or nothing.
    pub fn set(&mut self, key: &str, value: u32) -> (cmd: EngineCommand)
        ensures
            cmd == techno_command(key@, value),
            *final(self) == old(self).after_set(key@, value),
    {
        proof {
            lemma_key_texts();
        }
        if same_text(key, "sample_rate") || same_text(key, "sr") {
            return EngineCommand::SetSampleRate(value);
        }
        if same_text(key, "bpm") {
            return EngineCommand::SetBpm(value);
        }
        match Component::key_param(key) {
            Some(TechnoParam::T1Amp) => {
                self.t1_amp = value;
                EngineCommand::UpdateCode
            },
            Some(TechnoParam::T2Amp) => {
                self.t2_amp = value;
                EngineCommand::UpdateCode
            },
            Some(TechnoParam::T3Amp) => {
                self.t3_amp = value;
                EngineCommand::UpdateCode
            },
            None => EngineCommand::Ignore,
        }
    }

    /// The parameters offered to the host: the tempo from 40 to 360 (120 by default)
    /// and the three amplitudes from 0 to 1 (1, 0.6 and 0.05 by default).
    pub fn get_params() -> (out: Vec<ParamInfo>)
        ensures
            descs(out@) == techno_advertised(),
    {
        let mut out: Vec<ParamInfo> = Vec::new();
        out.push(param_info("bpm", MIN_BPM, MAX_BPM, DEFAULT_BPM));
        out.push(param_info("t1_amp", ZERO, ONE, ONE));
        out.push(param_info("t2_amp", ZERO, ONE, DEFAULT_T2_AMP));
        out.push(param_info("t3_amp", ZERO, ONE, DEFAULT_T3_AMP));
        assert(descs(out@) =~= techno_advertised());
        out
    }
}

/// Facts about the key texts that the plugin compares against.
proof fn lemma_key_texts()
    ensures
        "sample_rate"@.len() == 11,
        "sr"@.len() == 2,
        "bpm"@.len() == 3,
        "t1_amp"@.len() == 6,
        "t2_amp"@.len() == 6,
        "t3_amp"@.len() == 6,
        "t1_amp"@[1] == '1',
        "t2_amp"@[1] == '2',
        "t3_amp"@[1] == '3',
{
    reveal_strlit("sample_rate");
    reveal_strlit("sr");
    reveal_strlit("bpm");
    reveal_strlit("t1_amp");
    reveal_strlit("t2_amp");
    reveal_strlit("t3_amp");
}

/// Every parameter that the plugin offers is accepted by `set` under its offered
/// name; the offered amplitude defaults are the values the plugin starts with, and
/// the offered tempo default is its initial tempo.
pub proof fn lemma_offered_params_are_settable(v: u32)
    ensures
        forall|i: int|
            #![trigger techno_advertised()[i]]
            0 <= i < techno_advertised().len() ==> techno_command(techno_advertised()[i].name, v)
                != EngineCommand::Ignore,
        techno_advertised()[0].default == Component::initial().bpm,
        forall|i: int|
            #![trigger techno_advertised()[i]]
            1 <= i < techno_advertised().len() ==> {
                &&& techno_key(techno_advertised()[i].name) is Some
                &&& Component::initial().param(techno_key(techno_advertised()[i].name)->0)
                    == techno_advertised()[i].default
            },
{
    lemma_key_texts();
}

/// After an amplitude key is set to `v`, that amplitude reads `v` and the other
/// values are kept; any other key, `bpm` among them, leaves the values as they are;
/// of two settings of one key the later one counts.
pub proof fn lemma_set_then_get(c: Component, key: Seq<char>, v: u32, w: u32, q: TechnoParam)
    ensures
        techno_key(key) is Some ==> c.after_set(key, v).param(techno_key(key)->0) == v,
        techno_key(key) is Some && q != techno_key(key)->0 ==> c.after_set(key, v).param(q)
            == c.param(q),
        c.after_set(key, v).bpm == c.bpm,
        techno_key(key) is None ==> c.after_set(key, v) == c,
        c.after_set(key, v).after_set(key, w) == c.after_set(key, w),
{
}

/// A template in which no placeholder occurs is the engine code itself, whatever
/// the amplitudes.
pub proof fn lemma_code_without_placeholders(
    code: Seq<char>,
    t1: Seq<char>,
    t2: Seq<char>,
    t3: Seq<char>,
)
    requires
        forall|i: int| !#[trigger] occurs_at(code, "$t1_amp"@, i),
        forall|i: int| !#[trigger] occurs_at(code, "$t2_amp"@, i),
        forall|i: int| !#[trigger] occurs_at(code, "$t3_amp"@, i),
    ensures
        techno_code(code, t1, t2, t3) == code,
{
    reveal_strlit("$t1_amp");
    reveal_strlit("$t2_amp");
    reveal_strlit("$t3_amp");
    lemma_replace_absent(code, "$t1_amp"@, t1);
    lemma_replace_absent(code, "$t2_amp"@, t2);
    lemma_replace_absent(code, "$t3_amp"@, t3);
}


/// Whether `v` holds none of the three placeholders.
pub open spec fn no_placeholder(v: Seq<char>) -> bool {
    &&& forall|i: int| !#[trigger] occurs_at(v, "$t1_amp"@, i)
    &&& forall|i: int| !#[trigger] occurs_at(v, "$t2_amp"@, i)
    &&& forall|i: int| !#[trigger] occurs_at(v, "$t3_amp"@, i)
}

/// Whether `v` is a non-empty text with no character of any placeholder.
pub open spec fn plain_value(v: Seq<char>) -> bool {
    &&& v.len() > 0
    &&& free_of(v, "$t1_amp"@)
    &&& free_of(v, "$t2_amp"@)
    &&& free_of(v, "$t3_amp"@)
}

/// Facts about the placeholder texts: their lengths, and that none occurs in
/// another.
proof fn lemma_placeholder_texts()
    ensures
        "$t1_amp"@.len() == 7,
        "$t2_amp"@.len() == 7,
        "$t3_amp"@.len() == 7,
        forall|i: int| !#[trigger] occurs_at("$t2_amp"@, "$t1_amp"@, i),
        forall|i: int| !#[trigger] occurs_at("$t3_amp"@, "$t1_amp"@, i),
        forall|i: int| !#[trigger] occurs_at("$t3_amp"@, "$t2_amp"@, i),
        forall|i: int| !#[trigger] occurs_at("$t1_amp"@, "$t2_amp"@, i),
        forall|i: int| !#[trigger] occurs_at("$t1_amp"@, "$t3_amp"@, i),
        forall|i: int| !#[trigger] occurs_at("$t2_amp"@, "$t3_amp"@, i),
{
    reveal_strlit("$t1_amp");
    reveal_strlit("$t2_amp");
    reveal_strlit("$t3_amp");
    let p1 = "$t1_amp"@;
    let p2 = "$t2_amp"@;
    let p3 = "$t3_amp"@;
    assert forall|i: int| !#[trigger] occurs_at(p2, p1, i) by {
        if occurs_at(p2, p1, i) {
            assert(p2.subrange(0, 7)[2] == p1[2]);
        }
    }
    assert forall|i: int| !#[trigger] occurs_at(p3, p1, i) by {
        if occurs_at(p3, p1, i) {
            assert(p3.subrange(0, 7)[2] == p1[2]);
        }
    }
    assert forall|i: int| !#[trigger] occurs_at(p3, p2, i) by {
        if occurs_at(p3, p2, i) {
            assert(p3.subrange(0, 7)[2] == p2[2]);
        }
    }
    assert forall|i: int| !#[trigger] occurs_at(p1, p2, i) by {
        if occurs_at(p1, p2, i) {
            assert(p1.subrange(0, 7)[2] == p2[2]);
        }
    }
    assert forall|i: int| !#[trigger] occurs_at(p1, p3, i) by {
        if occurs_at(p1, p3, i) {
            assert(p1.subrange(0, 7)[2] == p3[2]);
        }
    }
    assert forall|i: int| !#[trigger] occurs_at(p2, p3, i) by {
        if occurs_at(p2, p3, i) {
            assert(p2.subrange(0, 7)[2] == p3[2]);
        }
    }
}

/// A template that is one placeholder becomes that placeholder's own amplitude, for
/// amplitudes that hold no placeholder.
pub proof fn lemma_each_placeholder_takes_its_value(t1: Seq<char>, t2: Seq<char>, t3: Seq<char>)
    requires
        no_placeholder(t1),
        no_placeholder(t2),
        no_placeholder(t3),
    ensures
        techno_code("$t1_amp"@, t1, t2, t3) == t1,
        techno_code("$t2_amp"@, t1, t2, t3) == t2,
        techno_code("$t3_amp"@, t1, t2, t3) == t3,
{
    lemma_placeholder_texts();
    let p1 = "$t1_amp"@;
    let p2 = "$t2_amp"@;
    let p3 = "$t3_amp"@;
    lemma_replace_single(p1, t1);
    lemma_replace_absent(t1, p2, t2);
    lemma_replace_absent(t1, p3, t3);
    lemma_replace_absent(p2, p1, t1);
    lemma_replace_single(p2, t2);
    lemma_replace_absent(t2, p3, t3);
    lemma_replace_absent(p3, p1, t1);
    lemma_replace_absent(p3, p2, t2);
    lemma_replace_single(p3, t3);
}

/// With amplitudes that are plain texts, every occurrence of every placeholder in
/// the template is replaced: no placeholder is left in the engine code.
pub proof fn lemma_no_placeholder_left(code: Seq<char>, t1: Seq<char>, t2: Seq<char>, t3: Seq<char>)
    requires
        plain_value(t1),
        plain_value(t2),
        plain_value(t3),
    ensures
        no_placeholder(techno_code(code, t1, t2, t3)),
{
    lemma_placeholder_texts();
    let p1 = "$t1_amp"@;
    let p2 = "$t2_amp"@;
    let p3 = "$t3_amp"@;
    let c1 = replaced(code, p1, t1);
    let c2 = replaced(c1, p2, t2);
    lemma_replace_avoids(code, p1, t1, p1);
    lemma_replace_avoids(c1, p2, t2, p1);
    lemma_replace_avoids(c1, p2, t2, p2);
    lemma_replace_avoids(c2, p3, t3, p1);
    lemma_replace_avoids(c2, p3, t3, p2);
    lemma_replace_avoids(c2, p3, t3, p3);
}

/// What each key asks of the engine: every amplitude key asks for new code; `bpm`,
/// and only it, asks for the value as the new tempo; the sample-rate keys, and only
/// they, ask for the value as the new sample rate; any other key asks for nothing.
pub proof fn lemma_commands(key: Seq<char>, v: u32)
    ensures
        techno_key(key) is Some ==> techno_command(key, v) == EngineCommand::UpdateCode,
        (techno_command(key, v) is SetBpm) <==> key == "bpm"@,
        key == "bpm"@ ==> techno_command(key, v) == EngineCommand::SetBpm(v),
        (techno_command(key, v) is SetSampleRate) <==> (key == "sample_rate"@ || key == "sr"@),
        techno_command(key, v) is SetSampleRate ==> techno_command(key, v) == EngineCommand::SetSampleRate(v),
        (techno_command(key, v) is Ignore) <==> (techno_key(key) is None && key != "bpm"@
            && key != "sample_rate"@ && key != "sr"@),
{
    lemma_key_texts();
}

/// Each offered range is a proper interval of non-negative numbers (whose bit
/// patterns order as the numbers do): the tempo from 40 to 360, the amplitudes from
/// 0 to 1; the offered names are distinct, each amplitude offered under the key that
/// sets it; each offered default lies in its range; and a fresh plugin has
/// amplitudes 1, 0.6 and 0.05 at 120 beats per minute.
pub proof fn lemma_offered_ranges()
    ensures
        techno_advertised()[0].name == "bpm"@,
        techno_advertised()[0].min == 0x4220_0000,  // 40.0
        techno_advertised()[0].max == 0x43b4_0000,  // 360.0
        techno_advertised()[0].default == 0x42f0_0000,  // 120.0
        forall|i: int|
            #![trigger techno_advertised()[i]]
            1 <= i < techno_advertised().len() ==> techno_advertised()[i].min == 0x0000_0000
                && techno_advertised()[i].max == 0x3f80_0000,  // 0.0 and 1.0
        techno_key(techno_advertised()[1].name) == Some(TechnoParam::T1Amp),
        techno_key(techno_advertised()[2].name) == Some(TechnoParam::T2Amp),
        techno_key(techno_advertised()[3].name) == Some(TechnoParam::T3Amp),
        Component::initial() == (Component {
            t1_amp: 0x3f80_0000,
            t2_amp: 0x3f19_999a,
            t3_amp: 0x3d4c_cccd,
            bpm: 0x42f0_0000,
        }),
        forall|i: int|
            #![trigger techno_advertised()[i]]
            0 <= i < techno_advertised().len() ==> techno_advertised()[i].min
                < techno_advertised()[i].max < 0x8000_0000 && techno_advertised()[i].min
                <= techno_advertised()[i].default <= techno_advertised()[i].max,
        forall|i: int, j: int|
            0 <= i < j < techno_advertised().len() ==> techno_advertised()[i].name
                != techno_advertised()[j].name,
{
    lemma_key_texts();
}

} // verus!

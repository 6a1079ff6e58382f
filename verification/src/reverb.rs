//! The reverb plugin: its parameters, the engine commands that setting them sends,
//! and the engine code made from them.
use vstd::prelude::*;
use crate::plugin::{descs, desc, param_info, EngineCommand, ParamDesc, ParamInfo, ONE, ZERO};
use crate::text::{
    free_of, lemma_replace_absent, lemma_replace_avoids, lemma_replace_single, occurs_at, replace,
    replaced, same_text,
};

verus! {

/// The bit pattern of `0.7`.
pub const DEFAULT_BANDWIDTH: u32 = 0x3f33_3333;

/// The bit pattern of `0.1`.
pub const DEFAULT_DAMPING: u32 = 0x3dcc_cccd;

/// The bit pattern of `0.3`.
pub const DEFAULT_DECAY: u32 = 0x3e99_999a;

/// The bit pattern of `0.1`.
pub const DEFAULT_MIX: u32 = 0x3dcc_cccd;

/// The bit pattern of `0.9999`, the largest decay offered.
pub const MAX_DECAY: u32 = 0x3f7f_f972;

/// A parameter of the reverb.
#[derive(Clone, Copy, Debug, PartialEq, Eq, Structural)]
pub enum ReverbParam {
    Bandwidth,
    Damping,
    Decay,
    Mix,
}

/// The parameter that `key` sets, if any.
pub open spec fn reverb_key(key: Seq<char>) -> Option<ReverbParam> {
    if key == "bandwidth"@ {
        Some(ReverbParam::Bandwidth)
    } else if key == "damping"@ {
        Some(ReverbParam::Damping)
    } else if key == "decay"@ {
        Some(ReverbParam::Decay)
    } else if key == "mix"@ {
        Some(ReverbParam::Mix)
    } else {
        None
    }
}

/// Whether `key` names the sample rate: `sample_rate` or `sr`.
pub open spec fn is_sample_rate_key(key: Seq<char>) -> bool {
    key == "sample_rate"@ || key == "sr"@
}

/// What setting `key` to `v` asks of the engine: a new sample rate, new code made
/// from the parameters, or nothing.
pub open spec fn reverb_command(key: Seq<char>, v: u32) -> EngineCommand {
    if is_sample_rate_key(key) {
        EngineCommand::SetSampleRate(v)
    } else if reverb_key(key) is Some {
        EngineCommand::UpdateCode
    } else {
        EngineCommand::Ignore
    }
}

/// The engine code made from `code` by putting the five values in place of
/// `#bandwidth`, `#damping`, `#decay`, `#wetmix` and `#drymix`, in that order.
pub open spec fn reverb_code(
    code: Seq<char>,
    bandwidth: Seq<char>,
    damping: Seq<char>,
    decay: Seq<char>,
    wetmix: Seq<char>,
    drymix: Seq<char>,
) -> Seq<char> {
    replaced(
        replaced(
            replaced(
                replaced(replaced(code, "#bandwidth"@, bandwidth), "#damping"@, damping),
                "#decay"@,
                decay,
            ),
            "#wetmix"@,
            wetmix,
        ),
        "#drymix"@,
        drymix,
    )
}

/// Makes the engine code from the template `code` and the texts of the parameter
/// values (`drymix` is the text of one minus the mix).
pub fn make_code(
    code: &str,
    bandwidth: &str,
    damping: &str,
    decay: &str,
    wetmix: &str,
    drymix: &str,
) -> (out: String)
    ensures
        out@ == reverb_code(code@, bandwidth@, damping@, decay@, wetmix@, drymix@),
{
    let c1 = replace(code, "#bandwidth", bandwidth);
    let c2 = replace(c1.as_str(), "#damping", damping);
    let c3 = replace(c2.as_str(), "#decay", decay);
    let c4 = replace(c3.as_str(), "#wetmix", wetmix);
    replace(c4.as_str(), "#drymix", drymix)
}

/// The parameters of the reverb, offered with the values `c` holds as defaults.
pub open spec fn reverb_advertised(c: Component) -> Seq<ParamDesc> {
    seq![
        desc("bandwidth"@, ZERO, ONE, c.bandwidth),
        desc("damping"@, ZERO, ONE, c.damping),
        desc("decay"@, ZERO, MAX_DECAY, c.decay),
        desc("mix"@, ZERO, ONE, c.mix),
    ]
}

/// The parameter values of the reverb, as bit patterns of single-precision numbers.
#[derive(Clone, Copy, Debug, PartialEq, Eq, Structural)]
pub struct Component {
    pub bandwidth: u32,
    pub damping: u32,
    pub decay: u32,
    pub mix: u32,
}

impl Component {
    /// The values the reverb starts with: bandwidth 0.7, damping 0.1, decay 0.3, mix 0.1.
    pub open spec fn initial() -> Component {
        Component {
            bandwidth: DEFAULT_BANDWIDTH,
            damping: DEFAULT_DAMPING,
            decay: DEFAULT_DECAY,
            mix: DEFAULT_MIX,
        }
    }

    /// The value of parameter `p`.
    pub open spec fn param(self, p: ReverbParam) -> u32 {
        match p {
            ReverbParam::Bandwidth => self.bandwidth,
            ReverbParam::Damping => self.damping,
            ReverbParam::Decay => self.decay,
            ReverbParam::Mix => self.mix,
        }
    }

    /// These values with parameter `p` set to `v`.
    pub open spec fn with_param(self, p: ReverbParam, v: u32) -> Component {
        match p {
            ReverbParam::Bandwidth => Component { bandwidth: v, ..self },
            ReverbParam::Damping => Component { damping: v, ..self },
            ReverbParam::Decay => Component { decay: v, ..self },
            ReverbParam::Mix => Component { mix: v, ..self },
        }
    }

    /// These values after setting `key` to `v`: unchanged unless the key names a
    /// parameter.
    pub open spec fn after_set(self, key: Seq<char>, v: u32) -> Component {
        match reverb_key(key) {
            Some(p) => self.with_param(p, v),
            None => self,
        }
    }

    /// A reverb with its initial values.
    pub fn new() -> (c: Component)
        ensures
            c == Component::initial(),
    {
        Component {
            bandwidth: DEFAULT_BANDWIDTH,
            damping: DEFAULT_DAMPING,
            decay: DEFAULT_DECAY,
            mix: DEFAULT_MIX,
        }
    }

    /// The parameter that `key` names, if any.
    pub fn key_param(key: &str) -> (p: Option<ReverbParam>)
        ensures
            p == reverb_key(key@),
    {
        if same_text(key, "bandwidth") {
            Some(ReverbParam::Bandwidth)
        } else if same_text(key, "damping") {
            Some(ReverbParam::Damping)
        } else if same_text(key, "decay") {
            Some(ReverbParam::Decay)
        } else if same_text(key, "mix") {
            Some(ReverbParam::Mix)
        } else {
            None
        }
    }

    /// The value of parameter `p`.
    pub fn get(&self, p: ReverbParam) -> (v: u32)
        ensures
            v == self.param(p),
    {
        match p {
            ReverbParam::Bandwidth => self.bandwidth,
            ReverbParam::Damping => self.damping,
            ReverbParam::Decay => self.decay,
            ReverbParam::Mix => self.mix,
        }
    }

    /// Sets `key` to `value` and returns what the engine must do: take the new
    /// sample rate, rebuild from new code, or nothing.
    pub fn set(&mut self, key: &str, value: u32) -> (cmd: EngineCommand)
        ensures
            cmd == reverb_command(key@, value),
            *final(self) == old(self).after_set(key@, value),
    {
        proof {
            lemma_key_texts();
        }
        if same_text(key, "sample_rate") || same_text(key, "sr") {
            return EngineCommand::SetSampleRate(value);
        }
        match Component::key_param(key) {
            Some(ReverbParam::Bandwidth) => {
                self.bandwidth = value;
                EngineCommand::UpdateCode
            },
            Some(ReverbParam::Damping) => {
                self.damping = value;
                EngineCommand::UpdateCode
            },
            Some(ReverbParam::Decay) => {
                self.decay = value;
                EngineCommand::UpdateCode
            },
            Some(ReverbParam::Mix) => {
                self.mix = value;
                EngineCommand::UpdateCode
            },
            None => EngineCommand::Ignore,
        }
    }

    /// The parameters offered to the host, each with its current value as default:
    /// bandwidth, damping and mix from 0 to 1, decay from 0 to 0.9999.
    pub fn get_params(&self) -> (out: Vec<ParamInfo>)
        ensures
            descs(out@) == reverb_advertised(*self),
    {
        let mut out: Vec<ParamInfo> = Vec::new();
        out.push(param_info("bandwidth", ZERO, ONE, self.bandwidth));
        out.push(param_info("damping", ZERO, ONE, self.damping));
        out.push(param_info("decay", ZERO, MAX_DECAY, self.decay));
        out.push(param_info("mix", ZERO, ONE, self.mix));
        assert(descs(out@) =~= reverb_advertised(*self));
        out
    }
}


/// Facts about the key texts that the reverb compares against.
proof fn lemma_key_texts()
    ensures
        "sample_rate"@.len() == 11,
        "sr"@.len() == 2,
        "bandwidth"@.len() == 9,
        "damping"@.len() == 7,
        "decay"@.len() == 5,
        "mix"@.len() == 3,
{
    reveal_strlit("sample_rate");
    reveal_strlit("sr");
    reveal_strlit("bandwidth");
    reveal_strlit("damping");
    reveal_strlit("decay");
    reveal_strlit("mix");
}

/// Every parameter that the reverb offers is set by its offered name: setting it
/// asks for new engine code, and afterwards that parameter is offered with the new
/// value as its default while the others keep theirs.
pub proof fn lemma_offered_params_are_settable(c: Component, v: u32)
    ensures
        forall|i: int|
            #![trigger reverb_advertised(c)[i]]
            0 <= i < reverb_advertised(c).len() ==> {
                let name = reverb_advertised(c)[i].name;
                &&& reverb_key(name) is Some
                &&& reverb_command(name, v) == EngineCommand::UpdateCode
                &&& reverb_advertised(c.after_set(name, v))[i].default == v
                &&& forall|j: int|
                    0 <= j < reverb_advertised(c).len() && j != i ==> reverb_advertised(
                        c.after_set(name, v),
                    )[j] == reverb_advertised(c)[j]
            },
{
    lemma_key_texts();
}

/// After a parameter key is set to `v`, that parameter reads `v` and the others keep
/// their values; any other key leaves the values as they are; of two settings of one
/// key the later one counts.
pub proof fn lemma_set_then_get(c: Component, key: Seq<char>, v: u32, w: u32, q: ReverbParam)
    ensures
        reverb_key(key) is Some ==> c.after_set(key, v).param(reverb_key(key)->0) == v,
        reverb_key(key) is Some && q != reverb_key(key)->0 ==> c.after_set(key, v).param(q)
            == c.param(q),
        reverb_key(key) is None ==> c.after_set(key, v) == c,
        c.after_set(key, v).after_set(key, w) == c.after_set(key, w),
{
}

/// A template in which no placeholder occurs is the engine code itself, whatever
/// the values.
pub proof fn lemma_code_without_placeholders(
    code: Seq<char>,
    bandwidth: Seq<char>,
    damping: Seq<char>,
    decay: Seq<char>,
    wetmix: Seq<char>,
    drymix: Seq<char>,
)
    requires
        forall|i: int| !#[trigger] occurs_at(code, "#bandwidth"@, i),
        forall|i: int| !#[trigger] occurs_at(code, "#damping"@, i),
        forall|i: int| !#[trigger] occurs_at(code, "#decay"@, i),
        forall|i: int| !#[trigger] occurs_at(code, "#wetmix"@, i),
        forall|i: int| !#[trigger] occurs_at(code, "#drymix"@, i),
    ensures
        reverb_code(code, bandwidth, damping, decay, wetmix, drymix) == code,
{
    reveal_strlit("#bandwidth");
    reveal_strlit("#damping");
    reveal_strlit("#decay");
    reveal_strlit("#wetmix");
    reveal_strlit("#drymix");
    lemma_replace_absent(code, "#bandwidth"@, bandwidth);
    lemma_replace_absent(code, "#damping"@, damping);
    lemma_replace_absent(code, "#decay"@, decay);
    lemma_replace_absent(code, "#wetmix"@, wetmix);
    lemma_replace_absent(code, "#drymix"@, drymix);
}


/// Whether `v` holds none of the five placeholders.
pub open spec fn no_placeholder(v: Seq<char>) -> bool {
    &&& forall|i: int| !#[trigger] occurs_at(v, "#bandwidth"@, i)
    &&& forall|i: int| !#[trigger] occurs_at(v, "#damping"@, i)
    &&& forall|i: int| !#[trigger] occurs_at(v, "#decay"@, i)
    &&& forall|i: int| !#[trigger] occurs_at(v, "#wetmix"@, i)
    &&& forall|i: int| !#[trigger] occurs_at(v, "#drymix"@, i)
}

/// Whether `v` is a non-empty text with no character of any placeholder, as the
/// text of a number is.
pub open spec fn plain_value(v: Seq<char>) -> bool {
    &&& v.len() > 0
    &&& free_of(v, "#bandwidth"@)
    &&& free_of(v, "#damping"@)
    &&& free_of(v, "#decay"@)
    &&& free_of(v, "#wetmix"@)
    &&& free_of(v, "#drymix"@)
}

/// Facts about the placeholder texts: their lengths, and that none of the shorter
/// ones occurs in another.
proof fn lemma_placeholder_texts()
    ensures
        "#bandwidth"@.len() == 10,
        "#damping"@.len() == 8,
        "#decay"@.len() == 6,
        "#wetmix"@.len() == 7,
        "#drymix"@.len() == 7,
        forall|i: int| !#[trigger] occurs_at("#wetmix"@, "#decay"@, i),
        forall|i: int| !#[trigger] occurs_at("#drymix"@, "#decay"@, i),
        forall|i: int| !#[trigger] occurs_at("#drymix"@, "#wetmix"@, i),
        "#bandwidth"@ != "#damping"@,
        "#wetmix"@ != "#drymix"@,
{
    reveal_strlit("#bandwidth");
    reveal_strlit("#damping");
    reveal_strlit("#decay");
    reveal_strlit("#wetmix");
    reveal_strlit("#drymix");
    assert forall|i: int| !#[trigger] occurs_at("#wetmix"@, "#decay"@, i) by {
        if occurs_at("#wetmix"@, "#decay"@, i) {
            if i == 0 {
                assert("#wetmix"@.subrange(0, 6)[1] == "#decay"@[1]);
            } else {
                assert("#wetmix"@.subrange(1, 7)[0] == "#decay"@[0]);
            }
        }
    }
    assert forall|i: int| !#[trigger] occurs_at("#drymix"@, "#decay"@, i) by {
        if occurs_at("#drymix"@, "#decay"@, i) {
            if i == 0 {
                assert("#drymix"@.subrange(0, 6)[2] == "#decay"@[2]);
            } else {
                assert("#drymix"@.subrange(1, 7)[0] == "#decay"@[0]);
            }
        }
    }
    assert forall|i: int| !#[trigger] occurs_at("#drymix"@, "#wetmix"@, i) by {
        if occurs_at("#drymix"@, "#wetmix"@, i) {
            assert("#drymix"@.subrange(0, 7)[1] == "#wetmix"@[1]);
        }
    }
    assert("#bandwidth"@.len() != "#damping"@.len());
    assert("#wetmix"@[1] != "#drymix"@[1]);
}

/// A template that is one placeholder becomes that placeholder's own value, for
/// values that hold no placeholder: `#bandwidth` the bandwidth, `#damping` the
/// damping, `#decay` the decay, `#wetmix` the wet mix and `#drymix` the dry mix.
pub proof fn lemma_each_placeholder_takes_its_value(
    b: Seq<char>,
    d: Seq<char>,
    y: Seq<char>,
    w: Seq<char>,
    r: Seq<char>,
)
    requires
        no_placeholder(b),
        no_placeholder(d),
        no_placeholder(y),
        no_placeholder(w),
        no_placeholder(r),
    ensures
        reverb_code("#bandwidth"@, b, d, y, w, r) == b,
        reverb_code("#damping"@, b, d, y, w, r) == d,
        reverb_code("#decay"@, b, d, y, w, r) == y,
        reverb_code("#wetmix"@, b, d, y, w, r) == w,
        reverb_code("#drymix"@, b, d, y, w, r) == r,
{
    lemma_placeholder_texts();
    let pb = "#bandwidth"@;
    let pd = "#damping"@;
    let py = "#decay"@;
    let pw = "#wetmix"@;
    let pr = "#drymix"@;
    // `#bandwidth`
    lemma_replace_single(pb, b);
    lemma_replace_absent(b, pd, d);
    lemma_replace_absent(b, py, y);
    lemma_replace_absent(b, pw, w);
    lemma_replace_absent(b, pr, r);
    // `#damping`
    lemma_replace_absent(pd, pb, b);
    lemma_replace_single(pd, d);
    lemma_replace_absent(d, py, y);
    lemma_replace_absent(d, pw, w);
    lemma_replace_absent(d, pr, r);
    // `#decay`
    lemma_replace_absent(py, pb, b);
    lemma_replace_absent(py, pd, d);
    lemma_replace_single(py, y);
    lemma_replace_absent(y, pw, w);
    lemma_replace_absent(y, pr, r);
    // `#wetmix`
    lemma_replace_absent(pw, pb, b);
    lemma_replace_absent(pw, pd, d);
    lemma_replace_absent(pw, py, y);
    lemma_replace_single(pw, w);
    lemma_replace_absent(w, pr, r);
    // `#drymix`
    lemma_replace_absent(pr, pb, b);
    lemma_replace_absent(pr, pd, d);
    lemma_replace_absent(pr, py, y);
    lemma_replace_absent(pr, pw, w);
    lemma_replace_single(pr, r);
}

/// With values that are plain texts, every occurrence of every placeholder in the
/// template is replaced: no placeholder is left in the engine code.
pub proof fn lemma_no_placeholder_left(
    code: Seq<char>,
    b: Seq<char>,
    d: Seq<char>,
    y: Seq<char>,
    w: Seq<char>,
    r: Seq<char>,
)
    requires
        plain_value(b),
        plain_value(d),
        plain_value(y),
        plain_value(w),
        plain_value(r),
    ensures
        no_placeholder(reverb_code(code, b, d, y, w, r)),
{
    lemma_placeholder_texts();
    let pb = "#bandwidth"@;
    let pd = "#damping"@;
    let py = "#decay"@;
    let pw = "#wetmix"@;
    let pr = "#drymix"@;
    let c1 = replaced(code, pb, b);
    let c2 = replaced(c1, pd, d);
    let c3 = replaced(c2, py, y);
    let c4 = replaced(c3, pw, w);
    lemma_replace_avoids(code, pb, b, pb);
    lemma_replace_avoids(c1, pd, d, pb);
    lemma_replace_avoids(c1, pd, d, pd);
    lemma_replace_avoids(c2, py, y, pb);
    lemma_replace_avoids(c2, py, y, pd);
    lemma_replace_avoids(c2, py, y, py);
    lemma_replace_avoids(c3, pw, w, pb);
    lemma_replace_avoids(c3, pw, w, pd);
    lemma_replace_avoids(c3, pw, w, py);
    lemma_replace_avoids(c3, pw, w, pw);
    lemma_replace_avoids(c4, pr, r, pb);
    lemma_replace_avoids(c4, pr, r, pd);
    lemma_replace_avoids(c4, pr, r, py);
    lemma_replace_avoids(c4, pr, r, pw);
    lemma_replace_avoids(c4, pr, r, pr);
}

/// What each key asks of the engine: the sample-rate keys, and only they, ask for
/// the value as the new sample rate; every parameter key asks for new code; the
/// reverb never sets a tempo; any other key asks for nothing.
pub proof fn lemma_commands(key: Seq<char>, v: u32)
    ensures
        reverb_key(key) is Some ==> reverb_command(key, v) == EngineCommand::UpdateCode,
        (reverb_command(key, v) is SetSampleRate) <==> (key == "sample_rate"@ || key == "sr"@),
        reverb_command(key, v) is SetSampleRate ==> reverb_command(key, v) == EngineCommand::SetSampleRate(v),
        !(reverb_command(key, v) is SetBpm),
        (reverb_command(key, v) is Ignore) <==> (reverb_key(key) is None && key != "sample_rate"@
            && key != "sr"@),
{
    lemma_key_texts();
}

/// Each offered range is a proper interval of non-negative numbers (whose bit
/// patterns order as the numbers do): bandwidth, damping and mix from 0 to 1, decay
/// from 0 to 0.9999; the offered names are distinct; and a fresh reverb's values
/// lie in their ranges. A fresh reverb has bandwidth 0.7, damping 0.1, decay 0.3
/// and mix 0.1, and each parameter is offered under the key that sets it.
pub proof fn lemma_offered_ranges(c: Component)
    ensures
        Component::initial() == (Component {
            bandwidth: 0x3f33_3333,
            damping: 0x3dcc_cccd,
            decay: 0x3e99_999a,
            mix: 0x3dcc_cccd,
        }),
        reverb_key(reverb_advertised(c)[0].name) == Some(ReverbParam::Bandwidth),
        reverb_key(reverb_advertised(c)[1].name) == Some(ReverbParam::Damping),
        reverb_key(reverb_advertised(c)[2].name) == Some(ReverbParam::Decay),
        reverb_key(reverb_advertised(c)[3].name) == Some(ReverbParam::Mix),
        reverb_advertised(c)[0].default == c.bandwidth,
        reverb_advertised(c)[1].default == c.damping,
        reverb_advertised(c)[2].default == c.decay,
        reverb_advertised(c)[3].default == c.mix,
        forall|i: int|
            #![trigger reverb_advertised(c)[i]]
            0 <= i < reverb_advertised(c).len() ==> {
                &&& reverb_advertised(c)[i].min == 0x0000_0000  // 0.0
                &&& reverb_advertised(c)[i].max == if i == 2 {
                    0x3f7f_f972u32  // 0.9999
                } else {
                    0x3f80_0000u32  // 1.0
                }
                &&& reverb_advertised(c)[i].min < reverb_advertised(c)[i].max < 0x8000_0000
            },
        forall|i: int, j: int|
            0 <= i < j < reverb_advertised(c).len() ==> reverb_advertised(c)[i].name
                != reverb_advertised(c)[j].name,
        forall|i: int|
            #![trigger reverb_advertised(Component::initial())[i]]
            0 <= i < reverb_advertised(Component::initial()).len() ==> reverb_advertised(
                Component::initial(),
            )[i].min <= reverb_advertised(Component::initial())[i].default
                <= reverb_advertised(Component::initial())[i].max,
{
    lemma_key_texts();
}

} // verus!

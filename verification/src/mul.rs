//! The gain plugin: one factor that scales every sample.
use vstd::prelude::*;
use crate::plugin::{descs, desc, param_info, ParamDesc, ParamInfo, ONE, ZERO};
use crate::text::same_text;

verus! {

/// Whether `key` names the factor.
pub open spec fn is_factor_key(key: Seq<char>) -> bool {
    key == "factor"@
}

/// The parameter that the gain plugin offers to its host.
pub open spec fn mul_advertised() -> Seq<ParamDesc> {
    seq![desc("factor"@, ZERO, ONE, ONE)]
}

/// The state of the gain plugin: its factor, as the bit pattern of a
/// single-precision number.
#[derive(Clone, Copy, Debug, PartialEq, Eq, Structural)]
pub struct Component {
    pub factor: u32,
}

impl Component {
    /// The state the plugin starts in: factor 1.
    pub open spec fn initial() -> Component {
        Component { factor: ONE }
    }

    /// This state after setting `key` to `v`: unchanged unless the key is `factor`.
    pub open spec fn after_set(self, key: Seq<char>, v: u32) -> Component {
        if is_factor_key(key) {
            Component { factor: v }
        } else {
            self
        }
    }

    /// A plugin with factor 1.
    pub fn new() -> (c: Component)
        ensures
            c == Component::initial(),
    {
        Component { factor: ONE }
    }

    /// Sets the factor when `key` is `factor`; any other key changes nothing.
    /// Returns whether the key was known.
    pub fn set(&mut self, key: &str, value: u32) -> (known: bool)
        ensures
            known == is_factor_key(key@),
            *final(self) == old(self).after_set(key@, value),
    {
        if same_text(key, "factor") {
            self.factor = value;
            true
        } else {
            false
        }
    }

    /// The parameter offered to the host: the factor from 0 to 1, 1 by default.
    pub fn get_params() -> (out: Vec<ParamInfo>)
        ensures
            descs(out@) == mul_advertised(),
    {
        let mut out: Vec<ParamInfo> = Vec::new();
        out.push(param_info("factor", ZERO, ONE, ONE));
        assert(descs(out@) =~= mul_advertised());
        out
    }
}

/// The offered parameter is the one `set` accepts, offered with the factor the
/// plugin starts with as its default; setting it makes the factor the value set.
pub proof fn lemma_offered_param_is_settable(c: Component, v: u32)
    ensures
        forall|i: int|
            #![trigger mul_advertised()[i]]
            0 <= i < mul_advertised().len() ==> {
                &&& is_factor_key(mul_advertised()[i].name)
                &&& Component::initial().factor == mul_advertised()[i].default
                &&& c.after_set(mul_advertised()[i].name, v).factor == v
            },
{
}


/// Setting `factor` makes the factor the value set, any other key changes nothing,
/// and of two settings of one key the later one counts.
pub proof fn lemma_set_then_get(c: Component, key: Seq<char>, v: u32, w: u32)
    ensures
        is_factor_key(key) ==> c.after_set(key, v).factor == v,
        !is_factor_key(key) ==> c.after_set(key, v) == c,
        c.after_set(key, v).after_set(key, w) == c.after_set(key, w),
{
}


/// The offered range of the factor is the proper interval from 0 to 1 of
/// non-negative numbers, its default 1 lies in it, and it is offered under the key
/// that `set` accepts.
pub proof fn lemma_offered_range()
    ensures
        mul_advertised().len() == 1,
        mul_advertised()[0].min == 0x0000_0000,  // 0.0
        mul_advertised()[0].max == 0x3f80_0000,  // 1.0
        mul_advertised()[0].default == 0x3f80_0000,  // 1.0
        mul_advertised()[0].name == "factor"@,
        is_factor_key("factor"@),
        mul_advertised()[0].min < mul_advertised()[0].max < 0x8000_0000,
        mul_advertised()[0].min <= mul_advertised()[0].default <= mul_advertised()[0].max,
{
}

} // verus!

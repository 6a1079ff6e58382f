//! What the plugins have in common: parameter descriptions and the commands that a
//! parameter change sends to a synthesis engine.
//!
//! Audio samples and parameter values are IEEE-754 single-precision numbers. The
//! library never computes with them; it stores and hands back their bit patterns
//! (what `f32::to_bits` gives), so a value comes back exactly as it went in.
use vstd::prelude::*;

verus! {

/// The bit pattern of `0.0`.
pub const ZERO: u32 = 0x0000_0000;

/// The bit pattern of `1.0`.
pub const ONE: u32 = 0x3f80_0000;

/// A parameter that a plugin offers to its host: its name, its range and its
/// default value (bit patterns of single-precision numbers).
pub struct ParamInfo {
    pub name: String,
    pub min: u32,
    pub max: u32,
    pub default: u32,
}

/// The mathematical content of a [`ParamInfo`].
pub struct ParamDesc {
    pub name: Seq<char>,
    pub min: u32,
    pub max: u32,
    pub default: u32,
}

impl View for ParamInfo {
    type V = ParamDesc;

    open spec fn view(&self) -> ParamDesc {
        ParamDesc { name: self.name@, min: self.min, max: self.max, default: self.default }
    }
}

/// The descriptions held by a list of parameter infos.
pub open spec fn descs(infos: Seq<ParamInfo>) -> Seq<ParamDesc> {
    infos.map_values(|p: ParamInfo| p@)
}

/// The description of a parameter named `name`.
pub open spec fn desc(name: Seq<char>, min: u32, max: u32, default: u32) -> ParamDesc {
    ParamDesc { name, min, max, default }
}

/// Builds a parameter info from a name and three bit patterns.
pub fn param_info(name: &str, min: u32, max: u32, default: u32) -> (p: ParamInfo)
    ensures
        p@ == desc(name@, min, max, default),
{
    ParamInfo { name: name.to_owned(), min, max, default }
}

/// What a synthesis engine must do after a parameter was set.
#[derive(Clone, Copy, Debug, PartialEq, Eq, Structural)]
pub enum EngineCommand {
    /// Run at this sample rate (bit pattern of the rate in Hz).
    SetSampleRate(u32),
    /// Play at this tempo (bit pattern of the beats per minute).
    SetBpm(u32),
    /// Rebuild the engine from the code made from the current parameters.
    UpdateCode,
    /// Nothing to do: the key names no parameter.
    Ignore,
}

} // verus!

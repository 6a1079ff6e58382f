//! How a host lays processed samples out in an interleaved output buffer.
use vstd::prelude::*;
use vstd::arithmetic::div_mod::{lemma_fundamental_div_mod, lemma_fundamental_div_mod_converse};
use vstd::arithmetic::mul::lemma_mul_inequality;

verus! {

/// The number of whole frames in an interleaved buffer of `data_len` samples with
/// `channels` samples per frame.
pub fn frame_count(data_len: usize, channels: usize) -> (n: usize)
    requires
        channels > 0,
    ensures
        n == data_len / channels,
{
    data_len / channels
}

/// `data` after the first `count` values were each written to the first two
/// samples of their frame, a later write winning where frames of fewer than two
/// channels overlap.
pub open spec fn stereo_written<T>(data: Seq<T>, values: Seq<T>, channels: int, count: int) -> Seq<
    T,
> {
    Seq::new(
        data.len(),
        |p: int|
            if channels >= 2 {
                if p % channels < 2 && p / channels < count {
                    values[p / channels]
                } else {
                    data[p]
                }
            } else if channels == 1 {
                if p < count {
                    values[p]
                } else if p == count && count > 0 {
                    values[count - 1]
                } else {
                    data[p]
                }
            } else {
                if p < 2 && count > 0 {
                    values[count - 1]
                } else {
                    data[p]
                }
            },
    )
}

/// Whether writing `n` values to two channels per frame stays inside a buffer of
/// `len` samples.
pub open spec fn stereo_fits(len: int, n: int, channels: int) -> bool {
    n == 0 || (n - 1) * channels + 1 < len
}

/// Where sample `p` lies: frame `i`, channel `c`, when `p == i * channels + c`.
proof fn lemma_position(p: int, channels: int, i: int, c: int)
    requires
        channels > 0,
        0 <= c < channels,
        p == i * channels + c,
    ensures
        p / channels == i,
        p % channels == c,
{
    lemma_fundamental_div_mod_converse(p, channels, i, c);
}

/// Writes `values[i]` to the first two samples of frame `i`, for each value in
/// order, and leaves every other sample of `data` as it was.
pub fn write_stereo<T: Copy>(data: &mut [T], values: &[T], channels: usize)
    requires
        stereo_fits(old(data)@.len() as int, values@.len() as int, channels as int),
    ensures
        final(data)@ == stereo_written(old(data)@, values@, channels as int, values@.len() as int),
{
    let n = values.len();
    let len = data.len();
    let ghost start = data@;
    let ghost ch = channels as int;
    assert(data@ =~= stereo_written(start, values@, ch, 0));
    let mut i: usize = 0;
    while i < n
        invariant
            n == values@.len(),
            ch == channels as int,
            i <= n,
            data@.len() == start.len(),
            len == start.len(),
            stereo_fits(start.len() as int, n as int, ch),
            data@ == stereo_written(start, values@, ch, i as int),
        decreases n - i,
    {
        proof {
            lemma_mul_inequality(i as int, (n - 1) as int, ch);
        }
        let pos = i * channels;
        let v = values[i];
        data[pos] = v;
        data[pos + 1] = v;
        proof {
            if ch >= 2 {
                lemma_position(pos as int, ch, i as int, 0);
                lemma_position(pos + 1, ch, i as int, 1);
                assert forall|p: int| 0 <= p < start.len() implies #[trigger] data@[p]
                    == stereo_written(start, values@, ch, i + 1)[p] by {
                    lemma_fundamental_div_mod(p, ch);
                    if p % ch < 2 && p / ch == i {
                        assert(p == i * ch + p % ch) by (nonlinear_arith)
                            requires
                                p == ch * (p / ch) + p % ch,
                                p / ch == i,
                        ;
                    }
                }
            }
            assert(data@ =~= stereo_written(start, values@, ch, i + 1));
        }
        i = i + 1;
    }
}

/// With frames of two channels or more, every value lands in both of the first two
/// channels of its own frame, and no other sample changes.
pub proof fn lemma_stereo_frames<T>(data: Seq<T>, values: Seq<T>, channels: int)
    requires
        channels >= 2,
        stereo_fits(data.len() as int, values.len() as int, channels),
    ensures
        forall|i: int|
            0 <= i < values.len() ==> {
                &&& #[trigger] stereo_written(data, values, channels, values.len() as int)[i
                    * channels] == values[i]
                &&& stereo_written(data, values, channels, values.len() as int)[i * channels + 1]
                    == values[i]
            },
        forall|p: int|
            0 <= p < data.len() && (p % channels >= 2 || p / channels >= values.len()) ==> #[trigger] stereo_written(
                data,
                values,
                channels,
                values.len() as int,
            )[p] == data[p],
{
    assert forall|i: int| 0 <= i < values.len() implies {
        &&& #[trigger] stereo_written(data, values, channels, values.len() as int)[i * channels]
            == values[i]
        &&& stereo_written(data, values, channels, values.len() as int)[i * channels + 1]
            == values[i]
    } by {
        lemma_mul_inequality(i, values.len() - 1, channels);
        lemma_position(i * channels, channels, i, 0);
        lemma_position(i * channels + 1, channels, i, 1);
    }
}


/// A value that a plugin hands back to its host, as far as the host reads it:
/// a text, a single-precision number (its bit pattern), or anything else.
#[derive(Debug)]
pub enum Value {
    String(String),
    Float32(u32),
    Other,
}

impl Value {
    /// A value equal to this one.
    pub fn duplicate(&self) -> (v: Value)
        ensures
            v == *self,
    {
        match self {
            Value::String(s) => Value::String(s.clone()),
            Value::Float32(f) => Value::Float32(*f),
            Value::Other => Value::Other,
        }
    }
}

/// A parameter as the host shows it: name, range and current value (bit patterns
/// of single-precision numbers).
pub struct ParamInfo {
    pub name: String,
    pub min: u32,
    pub max: u32,
    pub value: u32,
}

/// The text that `v` holds.
pub fn get_val_string(v: Value) -> (s: String)
    requires
        v is String,
    ensures
        s@ == v->String_0@,
{
    match v {
        Value::String(s) => s,
        _ => String::new(),
    }
}

/// The number that `v` holds.
pub fn get_val_f32(v: Value) -> (f: u32)
    requires
        v is Float32,
    ensures
        f == v->Float32_0,
{
    match v {
        Value::Float32(f) => f,
        _ => 0,
    }
}

/// Whether `record` has the fields of a parameter description in order: a name,
/// then minimum, maximum and default.
pub open spec fn is_param_record(record: Seq<Value>) -> bool {
    &&& record.len() >= 4
    &&& record[0] is String
    &&& record[1] is Float32
    &&& record[2] is Float32
    &&& record[3] is Float32
}

/// Checks [`is_param_record`].
pub fn check_param_record(record: &Vec<Value>) -> (ok: bool)
    ensures
        ok == is_param_record(record@),
{
    record.len() >= 4 && matches!(record[0], Value::String(_)) && matches!(record[1], Value::Float32(_))
        && matches!(record[2], Value::Float32(_)) && matches!(record[3], Value::Float32(_))
}

/// The parameter that a well-formed `record` describes, with its default as the
/// current value.
pub fn param_from_record(record: &Vec<Value>) -> (p: ParamInfo)
    requires
        is_param_record(record@),
    ensures
        p.name@ == record@[0]->String_0@,
        p.min == record@[1]->Float32_0,
        p.max == record@[2]->Float32_0,
        p.value == record@[3]->Float32_0,
{
    let name = get_val_string(record[0].duplicate());
    let min = get_val_f32(record[1].duplicate());
    let max = get_val_f32(record[2].duplicate());
    let value = get_val_f32(record[3].duplicate());
    ParamInfo { name, min, max, value }
}

} // verus!

//! Bit packing shared by the digital input and output modules: one register
//! word carries up to sixteen channel bits, lowest channel first.

use vstd::prelude::*;

use crate::error::Error;
use crate::util::{set_bit_16, spec_bit16, spec_with_bit16, test_bit_16};
use crate::{ChannelValue, ChannelValueModel};

verus! {

/// The channel values read from one register word: bit `i` is channel `i`.
pub open spec fn spec_decode_bits(word: u16, channel_count: int) -> Seq<ChannelValueModel> {
    Seq::new(channel_count as nat, |i: int| ChannelValueModel::Bit(spec_bit16(word, i as u16)))
}

/// A list of `channel_count` empty channel values, for the direction in which
/// a module carries no process data.
pub open spec fn spec_no_values(channel_count: int) -> Seq<ChannelValueModel> {
    Seq::new(channel_count as nat, |i: int| ChannelValueModel::NoValue)
}

/// The register word that encodes the first `i` channel values: one bit per
/// `Bit` channel, nothing for `Disabled`, an error for anything else.
pub open spec fn spec_encode_bits(values: Seq<ChannelValueModel>, i: int) -> Result<u16, Error>
    decreases i,
{
    if i <= 0 {
        Ok(0u16)
    } else {
        match spec_encode_bits(values, i - 1) {
            Err(e) => Err(e),
            Ok(w) => match values[i - 1] {
                ChannelValueModel::Bit(state) => if state {
                    Ok(spec_with_bit16(w, (i - 1) as u16))
                } else {
                    Ok(w)
                },
                ChannelValueModel::Disabled => Ok(w),
                _ => Err(Error::ChannelValue),
            },
        }
    }
}

/// Reads the channel bits of one register word.
pub fn decode_bits(word: u16, channel_count: usize) -> (r: Vec<ChannelValue>)
    requires
        channel_count <= 16,
    ensures
        r.deep_view() == spec_decode_bits(word, channel_count as int),
{
    let mut values: Vec<ChannelValue> = Vec::new();
    let mut i: usize = 0;
    while i < channel_count
        invariant
            channel_count <= 16,
            i <= channel_count,
            values@.len() == i,
            forall|j: int|
                0 <= j < i ==> values@[j].deep_view() == spec_decode_bits(
                    word,
                    channel_count as int,
                )[j],
        decreases channel_count - i,
    {
        values.push(ChannelValue::Bit(test_bit_16(word, i)));
        i = i + 1;
    }
    proof {
        crate::util::lemma_vec_deep_view_index(values);
        assert(values.deep_view() =~= spec_decode_bits(word, channel_count as int));
    }
    values
}

/// A list of `channel_count` empty channel values.
pub fn no_values(channel_count: usize) -> (r: Vec<ChannelValue>)
    ensures
        r.deep_view() == spec_no_values(channel_count as int),
{
    let mut values: Vec<ChannelValue> = Vec::new();
    let mut i: usize = 0;
    while i < channel_count
        invariant
            i <= channel_count,
            values@.len() == i,
            forall|j: int| 0 <= j < i ==> values@[j].deep_view() == ChannelValueModel::NoValue,
        decreases channel_count - i,
    {
        values.push(ChannelValue::NoValue);
        i = i + 1;
    }
    proof {
        crate::util::lemma_vec_deep_view_index(values);
        assert(values.deep_view() =~= spec_no_values(channel_count as int));
    }
    values
}

/// Packs the channel values into one register word.
pub fn encode_bits(values: &[ChannelValue]) -> (r: Result<u16, Error>)
    requires
        values@.len() <= 16,
    ensures
        r == spec_encode_bits(values.deep_view(), values@.len() as int),
{
    proof {
        crate::util::lemma_slice_deep_view_index(values);
    }
    let mut word: u16 = 0;
    let mut i: usize = 0;
    while i < values.len()
        invariant
            values@.len() <= 16,
            i <= values@.len(),
            values.deep_view().len() == values@.len(),
            forall|j: int|
                0 <= j < values@.len() ==> values.deep_view()[j] == values@[j].deep_view(),
            Ok::<u16, Error>(word) == spec_encode_bits(values.deep_view(), i as int),
        decreases values@.len() - i,
    {
        match &values[i] {
            ChannelValue::Bit(state) => {
                if *state {
                    word = set_bit_16(word, i);
                }
            },
            ChannelValue::Disabled => {},
            _ => {
                proof {
                    lemma_encode_bits_error(values.deep_view(), i + 1, values@.len() as int);
                }
                return Err(Error::ChannelValue);
            },
        }
        i = i + 1;
    }
    Ok(word)
}

/// Once encoding the first `k` channel values fails, encoding any longer
/// prefix fails the same way.
proof fn lemma_encode_bits_error(values: Seq<ChannelValueModel>, k: int, m: int)
    requires
        0 <= k <= m,
        spec_encode_bits(values, k) is Err,
    ensures
        spec_encode_bits(values, m) == spec_encode_bits(values, k),
    decreases m - k,
{
    if m > k {
        lemma_encode_bits_error(values, k, m - 1);
    }
}

} // verus!

//! Bit-level helpers shared by the module codecs and the process-image mapper:
//! single-bit tests and updates, and the little-endian conversions between
//! 16-bit register words and byte streams.

use vstd::prelude::*;

verus! {

/// Whether bit `bit` of `val` is set.
pub open spec fn spec_bit8(val: u8, bit: u8) -> bool
    recommends
        bit < 8,
{
    (val >> bit) & 1u8 == 1u8
}

/// Whether bit `bit` of `val` is set.
pub open spec fn spec_bit16(val: u16, bit: u16) -> bool
    recommends
        bit < 16,
{
    (val >> bit) & 1u16 == 1u16
}

/// `val` with bit `bit` set.
pub open spec fn spec_with_bit8(val: u8, bit: u8) -> u8
    recommends
        bit < 8,
{
    val | (1u8 << bit)
}

/// `val` with bit `bit` set.
pub open spec fn spec_with_bit16(val: u16, bit: u16) -> u16
    recommends
        bit < 16,
{
    val | (1u16 << bit)
}

/// The low byte of a register word.
pub open spec fn spec_lo(w: u16) -> u8 {
    (w & 0xFF) as u8
}

/// The high byte of a register word.
pub open spec fn spec_hi(w: u16) -> u8 {
    (w >> 8) as u8
}

/// The little-endian byte stream of a word sequence: low byte first.
pub open spec fn spec_le_bytes(words: Seq<u16>) -> Seq<u8> {
    Seq::new(2 * words.len(), |i: int| {
        if i % 2 == 0 {
            spec_lo(words[i / 2])
        } else {
            spec_hi(words[i / 2])
        }
    })
}

/// The word at index `i` of the word sequence read from a little-endian byte
/// stream; a missing high byte reads as zero.
pub open spec fn spec_word_at(bytes: Seq<u8>, i: int) -> u16 {
    if 2 * i + 1 < bytes.len() {
        (bytes[2 * i] as u16) | ((bytes[2 * i + 1] as u16) << 8)
    } else {
        bytes[2 * i] as u16
    }
}

/// The word sequence read from a little-endian byte stream; an odd trailing
/// byte becomes the low byte of a final word with a zero high byte.
pub open spec fn spec_le_words(bytes: Seq<u8>) -> Seq<u16> {
    Seq::new((bytes.len() + 1) / 2, |i: int| spec_word_at(bytes, i))
}

/// The shared-register shift: drop the first (low) byte of the stream, move
/// every remaining byte one position down and pad with a zero byte, then read
/// the result back as words.
pub open spec fn spec_shift_words(words: Seq<u16>) -> Seq<u16>
    recommends
        words.len() > 0,
{
    spec_le_words(spec_le_bytes(words).drop_first().push(0))
}

/// The deep view of a vector is the sequence of the deep views of its
/// elements.
pub proof fn lemma_vec_deep_view_index<T: DeepView>(v: Vec<T>)
    ensures
        v.deep_view().len() == v@.len(),
        forall|i: int| 0 <= i < v@.len() ==> v.deep_view()[i] == v@[i].deep_view(),
{
}

/// The deep view of a slice is the sequence of the deep views of its
/// elements.
pub proof fn lemma_slice_deep_view_index<T: DeepView>(v: &[T])
    ensures
        v.deep_view().len() == v@.len(),
        forall|i: int| 0 <= i < v@.len() ==> v.deep_view()[i] == v@[i].deep_view(),
{
}

/// The deep view of a vector of vectors, indexed twice.
pub proof fn lemma_nested_deep_view_index<T: DeepView>(v: Vec<Vec<T>>)
    ensures
        v.deep_view().len() == v@.len(),
        forall|m: int| 0 <= m < v@.len() ==> (#[trigger] v.deep_view()[m]).len() == v@[m]@.len(),
        forall|m: int, c: int|
            0 <= m < v@.len() && 0 <= c < v@[m]@.len() ==> v.deep_view()[m][c]
                == v@[m]@[c].deep_view(),
{
    lemma_vec_deep_view_index(v);
    assert forall|m: int| 0 <= m < v@.len() implies (#[trigger] v.deep_view()[m]).len()
        == v@[m]@.len() by {
        lemma_vec_deep_view_index(v@[m]);
    }
    assert forall|m: int, c: int|
        0 <= m < v@.len() && 0 <= c < v@[m]@.len() implies v.deep_view()[m][c]
        == v@[m]@[c].deep_view() by {
        lemma_vec_deep_view_index(v@[m]);
    }
}

/// Pushes an element and tracks the deep view.
pub fn push_deep<T: DeepView>(v: &mut Vec<T>, value: T)
    ensures
        final(v)@ == old(v)@.push(value),
        final(v).deep_view() == old(v).deep_view().push(value.deep_view()),
{
    proof {
        lemma_vec_deep_view_index(*v);
    }
    v.push(value);
    proof {
        lemma_vec_deep_view_index(*v);
        assert(v.deep_view() =~= old(v).deep_view().push(value.deep_view()));
    }
}

/// Replaces element `i` of a vector and tracks the deep view.
pub fn set_element<T: DeepView>(v: &mut Vec<T>, i: usize, value: T)
    requires
        i < old(v)@.len(),
    ensures
        final(v)@ == old(v)@.update(i as int, value),
        final(v).deep_view() == old(v).deep_view().update(i as int, value.deep_view()),
{
    proof {
        lemma_vec_deep_view_index(*v);
    }
    v.remove(i);
    v.insert(i, value);
    proof {
        assert(v@ =~= old(v)@.update(i as int, value));
        lemma_vec_deep_view_index(*v);
        assert(v.deep_view() =~= old(v).deep_view().update(i as int, value.deep_view()));
    }
}

/// Replaces channel `c` of row `m` and tracks the deep view.
pub fn set_nested_element<T: DeepView>(rows: &mut Vec<Vec<T>>, m: usize, c: usize, value: T)
    requires
        m < old(rows)@.len(),
        c < old(rows)@[m as int]@.len(),
    ensures
        final(rows).deep_view() == old(rows).deep_view().update(
            m as int,
            old(rows).deep_view()[m as int].update(c as int, value.deep_view()),
        ),
        final(rows)@.len() == old(rows)@.len(),
        forall|k: int|
            0 <= k < old(rows)@.len() && k != m ==> final(rows)@[k] == old(rows)@[k],
        final(rows)@[m as int]@ == old(rows)@[m as int]@.update(c as int, value),
{
    proof {
        lemma_vec_deep_view_index(*rows);
        lemma_vec_deep_view_index(old(rows)@[m as int]);
    }
    let mut row = rows.remove(m);
    set_element(&mut row, c, value);
    let ghost row_dv = row.deep_view();
    rows.insert(m, row);
    proof {
        assert(rows@ =~= old(rows)@.update(m as int, rows@[m as int]));
        lemma_vec_deep_view_index(*rows);
        assert(row_dv =~= old(rows).deep_view()[m as int].update(c as int, value.deep_view()));
        assert(rows.deep_view() =~= old(rows).deep_view().update(
            m as int,
            old(rows).deep_view()[m as int].update(c as int, value.deep_view()),
        ));
    }
}

/// A copy of a byte vector.
pub fn copy_bytes(v: &Vec<u8>) -> (r: Vec<u8>)
    ensures
        r@ == v@,
{
    let mut out: Vec<u8> = Vec::new();
    let mut i: usize = 0;
    while i < v.len()
        invariant
            i <= v@.len(),
            out@ == v@.take(i as int),
        decreases v@.len() - i,
    {
        out.push(v[i]);
        assert(out@ =~= v@.take(i + 1));
        i = i + 1;
    }
    assert(out@ =~= v@);
    out
}

/// Returns `val` with bit `bit_nr` set.
pub fn set_bit(val: u8, bit_nr: usize) -> (r: u8)
    requires
        bit_nr < 8,
    ensures
        r == spec_with_bit8(val, bit_nr as u8),
{
    val | (1u8 << (bit_nr as u8))
}

/// Returns `val` with bit `bit_nr` set.
pub fn set_bit_16(val: u16, bit_nr: usize) -> (r: u16)
    requires
        bit_nr < 16,
    ensures
        r == spec_with_bit16(val, bit_nr as u16),
{
    val | (1u16 << (bit_nr as u16))
}

/// Whether bit `bit_nr` of `val` is set.
pub fn test_bit(val: u8, bit_nr: usize) -> (r: bool)
    requires
        bit_nr < 8,
    ensures
        r == spec_bit8(val, bit_nr as u8),
{
    (val >> (bit_nr as u8)) & 1u8 == 1u8
}

/// Whether bit `bit_nr` of `val` is set.
pub fn test_bit_16(val: u16, bit_nr: usize) -> (r: bool)
    requires
        bit_nr < 16,
    ensures
        r == spec_bit16(val, bit_nr as u16),
{
    (val >> (bit_nr as u16)) & 1u16 == 1u16
}

/// Serialises register words into their little-endian byte stream.
pub fn u16_to_u8(words: &[u16]) -> (r: Vec<u8>)
    requires
        2 * words.len() <= usize::MAX,
    ensures
        r@ == spec_le_bytes(words@),
{
    let mut bytes: Vec<u8> = Vec::new();
    let mut i: usize = 0;
    while i < words.len()
        invariant
            i <= words.len(),
            bytes@.len() == 2 * i,
            forall|j: int| 0 <= j < 2 * i ==> bytes@[j] == spec_le_bytes(words@)[j],
        decreases words.len() - i,
    {
        let w = words[i];
        bytes.push((w & 0xFF) as u8);
        bytes.push((w >> 8u16) as u8);
        i = i + 1;
    }
    assert(bytes@ =~= spec_le_bytes(words@));
    bytes
}

/// Reads a little-endian byte stream back into register words; an odd
/// trailing byte becomes the low byte of a final word.
pub fn u8_to_u16(bytes: &[u8]) -> (r: Vec<u16>)
    requires
        bytes.len() < usize::MAX,
    ensures
        r@ == spec_le_words(bytes@),
{
    let mut words: Vec<u16> = Vec::new();
    let n = bytes.len();
    let mut i: usize = 0;
    while i < (n + 1) / 2
        invariant
            n == bytes@.len(),
            n + 1 <= usize::MAX,
            i <= (n + 1) / 2,
            words@.len() == i,
            forall|j: int| 0 <= j < i ==> words@[j] == spec_word_at(bytes@, j),
        decreases (n + 1) / 2 - i,
    {
        let lo = bytes[2 * i] as u16;
        let w = if 2 * i + 1 < n {
            lo | ((bytes[2 * i + 1] as u16) << 8u16)
        } else {
            lo
        };
        words.push(w);
        i = i + 1;
    }
    assert(words@ =~= spec_le_words(bytes@));
    words
}

/// Extracts the byte stream that starts at the high byte of the first word:
/// the low byte is dropped, the rest moves down one position and a zero byte
/// is appended before reading the stream back as words.
pub fn shift_data(data: &[u16]) -> (r: Vec<u16>)
    requires
        data.len() > 0,
        2 * data.len() < usize::MAX,
    ensures
        r@ == spec_shift_words(data@),
{
    let buf = u16_to_u8(data);
    let mut shifted: Vec<u8> = Vec::new();
    let mut i: usize = 1;
    while i < buf.len()
        invariant
            1 <= i <= buf.len(),
            shifted@ == buf@.subrange(1, i as int),
        decreases buf.len() - i,
    {
        shifted.push(buf[i]);
        i = i + 1;
    }
    shifted.push(0);
    assert(shifted@ =~= spec_le_bytes(data@).drop_first().push(0));
    u8_to_u16(&shifted)
}

/// A module that owns only the high byte of a shared register reads the same
/// values as a module that owns a whole register holding that byte: shifting
/// a single word keeps exactly its high byte.
pub proof fn lemma_shift_single_word(w: u16)
    ensures
        spec_shift_words(seq![w]) == seq![w >> 8u16],
{
    let bytes = spec_le_bytes(seq![w]);
    assert(bytes.len() == 2);
    let shifted = bytes.drop_first().push(0);
    assert(shifted.len() == 2);
    assert(shifted[0] == spec_hi(w));
    assert(shifted[1] == 0u8);
    assert(((spec_hi(w) as u16) | ((0u8 as u16) << 8)) == w >> 8u16) by (bit_vector);
    assert(spec_shift_words(seq![w]) =~= seq![w >> 8u16]);
}

} // verus!

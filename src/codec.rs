use vstd::prelude::*;

use crate::order::NybbleOrder;

verus! {

/// The high four bits of `b`, as a value in `0..16`.
pub open spec fn high_of(b: u8) -> u8 {
    b / 16
}

/// The low four bits of `b`, as a value in `0..16`.
pub open spec fn low_of(b: u8) -> u8 {
    b % 16
}

/// The byte made of `high` shifted into the upper half and `low` or-ed in.
/// Neither input is masked: bits of `high` above the fourth are shifted out
/// of the byte, and bits of `low` above the fourth land in the upper half.
pub open spec fn byte_of(high: u8, low: u8) -> u8 {
    ((high << 4u8) | low) as u8
}

/// Gets the high nybble from a byte.
pub fn high_nybble(b: u8) -> (r: u8)
    ensures
        r == high_of(b),
        r < 16,
{
    let r = (b & 0xf0) >> 4;
    assert(((b & 0xf0) >> 4) == b / 16) by (bit_vector);
    r
}

/// Gets the low nybble from a byte.
pub fn low_nybble(b: u8) -> (r: u8)
    ensures
        r == low_of(b),
        r < 16,
{
    assert((b & 0x0f) == b % 16) by (bit_vector);
    b & 0x0f
}

/// Gets the high and low nybble of a byte as a pair, high nybble first.
pub fn nybbles_from_byte(b: u8) -> (r: (u8, u8))
    ensures
        r == (high_of(b), low_of(b)),
{
    (high_nybble(b), low_nybble(b))
}

/// Makes a byte from its high and low nybbles, high nybble first.
/// For nybbles in `0..16` the result is `16 * high + low`; larger inputs are
/// not masked (see [`byte_of`]).
pub fn byte_from_nybbles(high: u8, low: u8) -> (r: u8)
    ensures
        r == byte_of(high, low),
        high < 16 && low < 16 ==> r == 16 * high + low,
{
    assert(high < 16 && low < 16 ==> ((high << 4u8) | low) as u8 == 16 * high + low) by (bit_vector);
    high << 4 | low
}

/// Why a nybble buffer could not be combined into bytes.
#[derive(Copy, Clone, PartialEq, Eq, Structural, Hash, Debug)]
pub enum NybbleError {
    /// The buffer has an odd length, so its nybbles do not pair up.
    InvalidLength,
}

/// The nybble of `b` that comes first under `order`.
pub open spec fn first_of(b: u8, order: NybbleOrder) -> u8 {
    match order {
        NybbleOrder::HighFirst => high_of(b),
        NybbleOrder::LowFirst => low_of(b),
    }
}

/// The nybble of `b` that comes second under `order`.
pub open spec fn second_of(b: u8, order: NybbleOrder) -> u8 {
    match order {
        NybbleOrder::HighFirst => low_of(b),
        NybbleOrder::LowFirst => high_of(b),
    }
}

/// The split form of `s`: byte `k` of `s` becomes the pair at positions
/// `2k` and `2k + 1`, its nybbles in the given order.
pub open spec fn split_spec(s: Seq<u8>, order: NybbleOrder) -> Seq<u8> {
    Seq::new(
        2 * s.len(),
        |i: int|
            if i % 2 == 0 {
                first_of(s[i / 2], order)
            } else {
                second_of(s[i / 2], order)
            },
    )
}

/// The byte that the pair `(a, b)` stands for under `order`: `a` is the high
/// nybble for `HighFirst`, the low one for `LowFirst`.
pub open spec fn pair_byte(a: u8, b: u8, order: NybbleOrder) -> u8 {
    match order {
        NybbleOrder::HighFirst => byte_of(a, b),
        NybbleOrder::LowFirst => byte_of(b, a),
    }
}

/// The combined form of `s`: byte `k` is made from the pair at positions
/// `2k` and `2k + 1`. Meant for `s` of even length.
pub open spec fn combine_spec(s: Seq<u8>, order: NybbleOrder) -> Seq<u8> {
    Seq::new(s.len() / 2, |k: int| pair_byte(s[2 * k], s[2 * k + 1], order))
}

/// Makes a new buffer from `data` with each byte split into its high and
/// low nybble; `order` decides which of the two comes first.
pub fn nybblify(data: Vec<u8>, order: NybbleOrder) -> (r: Vec<u8>)
    ensures
        r@ == split_spec(data@, order),
        r@.len() == 2 * data@.len(),
{
    let mut result: Vec<u8> = Vec::new();
    let mut i: usize = 0;
    while i < data.len()
        invariant
            i <= data@.len(),
            result@.len() == 2 * i,
            forall|j: int| 0 <= j < 2 * i ==> result@[j] == #[trigger] split_spec(data@, order)[j],
        decreases data@.len() - i,
    {
        let n = nybbles_from_byte(data[i]);
        match order {
            NybbleOrder::HighFirst => {
                result.push(n.0);
                result.push(n.1);
            },
            NybbleOrder::LowFirst => {
                result.push(n.1);
                result.push(n.0);
            },
        }
        assert(split_spec(data@, order)[2 * i as int] == first_of(data@[i as int], order));
        assert(split_spec(data@, order)[2 * i + 1] == second_of(data@[i as int], order));
        i += 1;
    }
    assert(result@ =~= split_spec(data@, order));
    result
}

/// Makes a new buffer from `data` by combining each adjacent pair of
/// nybbles into one byte; `order` decides which of the pair is the high one.
/// A buffer of odd length is refused with `InvalidLength`.
pub fn denybblify(data: Vec<u8>, order: NybbleOrder) -> (r: Result<Vec<u8>, NybbleError>)
    ensures
        r is Ok <==> data@.len() % 2 == 0,
        match r {
            Ok(v) => v@ == combine_spec(data@, order) && v@.len() == data@.len() / 2,
            Err(e) => e == NybbleError::InvalidLength,
        },
{
    if data.len() % 2 != 0 {
        return Err(NybbleError::InvalidLength);
    }
    let mut result: Vec<u8> = Vec::new();
    let count = data.len() / 2;
    let mut index: usize = 0;
    let mut offset: usize = 0;
    while index < count
        invariant
            count == data@.len() / 2,
            data@.len() % 2 == 0,
            data@.len() <= usize::MAX,
            index <= count,
            offset == 2 * index,
            offset + 2 * (count - index) == data@.len(),
            result@.len() == index,
            forall|k: int| 0 <= k < index ==> result@[k] == #[trigger] combine_spec(data@, order)[k],
        decreases count - index,
    {
        let a = data[offset];
        let b = data[offset + 1];
        let byte = match order {
            NybbleOrder::HighFirst => byte_from_nybbles(a, b),
            NybbleOrder::LowFirst => byte_from_nybbles(b, a),
        };
        result.push(byte);
        index += 1;
        offset += 2;
    }
    assert(result@ =~= combine_spec(data@, order));
    Ok(result)
}

} // verus!

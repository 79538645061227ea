use vstd::prelude::*;

use crate::codec::{byte_of, combine_spec, first_of, high_of, low_of, pair_byte, second_of, split_spec};
use crate::order::NybbleOrder;

verus! {

/// A byte is rebuilt exactly from its own high and low nybble.
pub proof fn lemma_byte_from_own_nybbles(b: u8)
    ensures
        byte_of(high_of(b), low_of(b)) == b,
{
    assert((((b / 16) << 4u8) | (b % 16)) as u8 == b) by (bit_vector);
}

/// For nybbles in `0..16`, the byte they make is `16 * high + low`.
pub proof fn lemma_byte_of_nybbles(high: u8, low: u8)
    requires
        high < 16,
        low < 16,
    ensures
        byte_of(high, low) == 16 * high + low,
{
    assert(((high << 4u8) | low) as u8 == 16 * high + low) by (bit_vector)
        requires
            high < 16,
            low < 16,
    ;
}

/// Combining a split buffer with the order it was split with gives back
/// the original buffer.
pub proof fn lemma_round_trip(s: Seq<u8>, order: NybbleOrder)
    ensures
        split_spec(s, order).len() % 2 == 0,
        combine_spec(split_spec(s, order), order) == s,
{
    let t = split_spec(s, order);
    assert forall|k: int| 0 <= k < s.len() implies #[trigger] combine_spec(t, order)[k] == s[k] by {
        assert(t[2 * k] == first_of(s[k], order));
        assert(t[2 * k + 1] == second_of(s[k], order));
        lemma_byte_from_own_nybbles(s[k]);
    }
    assert(combine_spec(t, order) =~= s);
}

/// A split buffer is twice as long as the buffer it was split from, in
/// either order.
pub proof fn lemma_split_doubles_length(s: Seq<u8>, order: NybbleOrder)
    ensures
        split_spec(s, order).len() == 2 * s.len(),
{
}

/// Splitting or combining the empty buffer gives the empty buffer, in
/// either order.
pub proof fn lemma_empty(order: NybbleOrder)
    ensures
        split_spec(Seq::empty(), order) == Seq::<u8>::empty(),
        combine_spec(Seq::empty(), order) == Seq::<u8>::empty(),
{
    assert(split_spec(Seq::empty(), order) =~= Seq::<u8>::empty());
    assert(combine_spec(Seq::empty(), order) =~= Seq::<u8>::empty());
}

/// Combining with the other order than the one a buffer was split with
/// does not give the buffer back once it holds a byte whose two nybbles
/// differ: at that byte the nybbles trade places.
pub proof fn lemma_order_mismatch(s: Seq<u8>, i: int, split_order: NybbleOrder, combine_order: NybbleOrder)
    requires
        0 <= i < s.len(),
        high_of(s[i]) != low_of(s[i]),
        split_order != combine_order,
    ensures
        combine_spec(split_spec(s, split_order), combine_order)[i] == byte_of(low_of(s[i]), high_of(s[i])),
        combine_spec(split_spec(s, split_order), combine_order) != s,
{
    let t = split_spec(s, split_order);
    let b = s[i];
    assert(t[2 * i] == first_of(b, split_order));
    assert(t[2 * i + 1] == second_of(b, split_order));
    assert(combine_spec(t, combine_order)[i] == pair_byte(t[2 * i], t[2 * i + 1], combine_order));
    lemma_byte_of_nybbles(low_of(b), high_of(b));
    assert(b == 16 * high_of(b) + low_of(b));
}

} // verus!

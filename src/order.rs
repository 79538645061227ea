use vstd::prelude::*;
use vstd::string::StrSliceExecFns;
use vstd::string::StringExecFns;

verus! {

/// The order of the two nybbles of a byte in a split buffer.
#[derive(Copy, Clone, PartialEq, Eq, Structural, Hash, Debug)]
pub enum NybbleOrder {
    /// The high nybble comes before the low nybble.
    HighFirst,
    /// The low nybble comes before the high nybble.
    LowFirst,
}

/// The order that a selector string names: its first character decides,
/// `'h'` for high first and `'l'` for low first; anything else names none.
pub open spec fn order_of_selector(s: Seq<char>) -> Option<NybbleOrder> {
    if s.len() > 0 && s[0] == 'l' {
        Some(NybbleOrder::LowFirst)
    } else if s.len() > 0 && s[0] == 'h' {
        Some(NybbleOrder::HighFirst)
    } else {
        None
    }
}

/// The one-letter symbol of an order: `h` or `l`.
pub open spec fn symbol_of(order: NybbleOrder) -> Seq<char> {
    match order {
        NybbleOrder::HighFirst => seq!['h'],
        NybbleOrder::LowFirst => seq!['l'],
    }
}

impl NybbleOrder {
    /// The one-letter symbol of this order, `"h"` or `"l"`; the first
    /// letter of a selector that names it.
    pub fn symbol(&self) -> (r: String)
        ensures
            r@ == symbol_of(*self),
            order_of_selector(r@) == Some(*self),
    {
        proof {
            reveal_strlit("h");
            reveal_strlit("l");
        }
        match self {
            NybbleOrder::HighFirst => String::from_str("h"),
            NybbleOrder::LowFirst => String::from_str("l"),
        }
    }

    /// Reads an order from a selector string by its first character:
    /// `'h'` gives `HighFirst`, `'l'` gives `LowFirst`, and any other
    /// string (the empty one included) gives `None`.
    pub fn from_selector(s: &str) -> (r: Option<NybbleOrder>)
        ensures
            r == order_of_selector(s@),
    {
        if s.unicode_len() == 0 {
            return None;
        }
        let c = s.get_char(0);
        if c == 'l' {
            Some(NybbleOrder::LowFirst)
        } else if c == 'h' {
            Some(NybbleOrder::HighFirst)
        } else {
            None
        }
    }
}

} // verus!

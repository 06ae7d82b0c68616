//! The reel alphabet: six symbols with a fixed payout table.

use vstd::prelude::*;

verus! {

/// One face of the reel: four ordinary suits, a wildcard that matches
/// anything but pays nothing of its own, and a jackpot symbol.
#[derive(Clone, Copy, PartialEq, Eq, Structural, Debug)]
pub enum Symbol {
    Spade,
    Heart,
    Diamond,
    Club,
    Wildcard,
    Jackpot,
}

/// The fixed payout multiplier of each symbol. The wildcard has no intrinsic
/// payout; its effective payout is borrowed from whatever it resolves to.
pub open spec fn spec_payout(s: Symbol) -> u32 {
    match s {
        Symbol::Spade => 10,
        Symbol::Heart => 20,
        Symbol::Diamond => 30,
        Symbol::Club => 40,
        Symbol::Wildcard => 0,
        Symbol::Jackpot => 100,
    }
}

/// Every payout table entry is small; sums over a handful of lines stay
/// far below any machine limit.
pub proof fn lemma_payout_bounded(s: Symbol)
    ensures
        spec_payout(s) <= 100,
{
}

/// Look up the payout table entry for a symbol.
pub fn symbol_payout(s: Symbol) -> (amount: u32)
    ensures
        amount == spec_payout(s),
{
    match s {
        Symbol::Spade => 10,
        Symbol::Heart => 20,
        Symbol::Diamond => 30,
        Symbol::Club => 40,
        Symbol::Wildcard => 0,
        Symbol::Jackpot => 100,
    }
}

/// The symbol that a raw reel index in [0, 6) stands for, in the fixed
/// reel order.
pub open spec fn spec_symbol_of_index(i: int) -> Symbol {
    if i == 0 {
        Symbol::Spade
    } else if i == 1 {
        Symbol::Heart
    } else if i == 2 {
        Symbol::Diamond
    } else if i == 3 {
        Symbol::Club
    } else if i == 4 {
        Symbol::Wildcard
    } else {
        Symbol::Jackpot
    }
}

/// Decode a raw reel index into its symbol.
pub fn symbol_of_index(i: usize) -> (s: Symbol)
    requires
        i < 6,
    ensures
        s == spec_symbol_of_index(i as int),
{
    if i == 0 {
        Symbol::Spade
    } else if i == 1 {
        Symbol::Heart
    } else if i == 2 {
        Symbol::Diamond
    } else if i == 3 {
        Symbol::Club
    } else if i == 4 {
        Symbol::Wildcard
    } else {
        Symbol::Jackpot
    }
}

} // verus!

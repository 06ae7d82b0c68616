//! The grid generator: a fresh 3x3 grid of random symbols for every spin.

use vstd::prelude::*;
use rand::Rng;
use crate::evaluator::Grid;
use crate::symbol::Symbol;
use crate::symbol::symbol_of_index;

verus! {

/// Relies on rand::Rng::gen_range on the thread-local generator: a draw from
/// the non-empty range 0..6 returns a value in that range and does not
/// panic. The draw is random, so nothing beyond the range is assumed.
#[verifier::external_body]
fn draw_reel_index() -> (i: usize)
    ensures
        i < 6,
{
    rand::thread_rng().gen_range(0..6)
}

/// Draw one random symbol from the six-symbol reel alphabet. Which symbol
/// comes back is up to the random source; every call may differ.
fn draw_symbol() -> Symbol {
    symbol_of_index(draw_reel_index())
}

/// Produce a fresh 3x3 grid, each cell drawn independently from the reel
/// alphabet. The draws are random, so no relation between the cells, or
/// between two spins, is promised.
pub fn spin() -> Grid {
    [
        [draw_symbol(), draw_symbol(), draw_symbol()],
        [draw_symbol(), draw_symbol(), draw_symbol()],
        [draw_symbol(), draw_symbol(), draw_symbol()],
    ]
}

} // verus!

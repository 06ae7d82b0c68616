//! The payline evaluation engine: which lines win, what each winning line
//! pays, and which cells light up.

use vstd::prelude::*;
use crate::symbol::Symbol;
use crate::symbol::spec_payout;
use crate::symbol::symbol_payout;

verus! {

/// A line wins exactly when its non-wildcard symbols are pairwise equal.
/// With no wildcard this asks that all three symbols be identical; with
/// wildcards present, only the non-wildcard symbols must agree (vacuously
/// true when none or one remains, so an all-wildcard line wins).
pub open spec fn spec_line_wins(line: Seq<Symbol>) -> bool
    recommends
        line.len() == 3,
{
    &&& (line[0] != Symbol::Wildcard && line[1] != Symbol::Wildcard ==> line[0] == line[1])
    &&& (line[0] != Symbol::Wildcard && line[2] != Symbol::Wildcard ==> line[0] == line[2])
    &&& (line[1] != Symbol::Wildcard && line[2] != Symbol::Wildcard ==> line[1] == line[2])
}

/// The paying symbol of a line: the first non-wildcard symbol scanning left
/// to right. An all-wildcard line resolves to its first cell, the wildcard
/// itself, whose payout is zero; such a line counts as a win that pays
/// nothing.
pub open spec fn spec_paying_symbol(line: Seq<Symbol>) -> Symbol
    recommends
        line.len() == 3,
{
    if line[0] != Symbol::Wildcard {
        line[0]
    } else if line[1] != Symbol::Wildcard {
        line[1]
    } else if line[2] != Symbol::Wildcard {
        line[2]
    } else {
        line[0]
    }
}

/// The payout a line produces when it wins: the payout table entry of its
/// paying symbol.
pub open spec fn spec_line_payout(line: Seq<Symbol>) -> u32
    recommends
        line.len() == 3,
{
    spec_payout(spec_paying_symbol(line))
}

/// A 3x3 grid of symbols, indexed by (row, col).
pub type Grid = [[Symbol; 3]; 3];

/// A 3x3 mask marking every cell that belongs to at least one winning line.
pub type WinMask = [[bool; 3]; 3];

/// The row of the cell at position `j` of payline `k`. Paylines 0..2 are the
/// three rows, payline 3 the main diagonal, payline 4 the anti-diagonal.
pub open spec fn spec_line_row(k: int, j: int) -> int
    recommends
        0 <= k < 5,
        0 <= j < 3,
{
    if k < 3 {
        k
    } else {
        j
    }
}

/// The column of the cell at position `j` of payline `k`.
pub open spec fn spec_line_col(k: int, j: int) -> int
    recommends
        0 <= k < 5,
        0 <= j < 3,
{
    if k < 3 {
        j
    } else if k == 3 {
        j
    } else {
        2 - j
    }
}

/// Whether cell (r, c) lies on payline `k`.
pub open spec fn spec_cell_on_line(k: int, r: int, c: int) -> bool
    recommends
        0 <= k < 5,
{
    if k < 3 {
        r == k && 0 <= c < 3
    } else if k == 3 {
        0 <= r < 3 && c == r
    } else {
        0 <= r < 3 && 0 <= c < 3 && r + c == 2
    }
}

/// The ordered triple of symbols that payline `k` reads off the grid.
pub open spec fn spec_line_of(g: Grid, k: int) -> Seq<Symbol>
    recommends
        0 <= k < 5,
{
    seq![
        g[spec_line_row(k, 0)][spec_line_col(k, 0)],
        g[spec_line_row(k, 1)][spec_line_col(k, 1)],
        g[spec_line_row(k, 2)][spec_line_col(k, 2)],
    ]
}

/// Whether payline `k` is enabled by an active-line count: the enabled lines
/// are exactly the prefix 0..active of the fixed priority order.
pub open spec fn spec_line_enabled(active: u32, k: int) -> bool {
    0 <= k < 5 && active >= k + 1
}

/// Whether payline `k` both is enabled and wins on this grid.
pub open spec fn spec_line_hit(g: Grid, active: u32, k: int) -> bool {
    spec_line_enabled(active, k) && spec_line_wins(spec_line_of(g, k))
}

/// What payline `k` contributes to the total: its own payout when it is
/// enabled and wins, and nothing otherwise.
pub open spec fn spec_line_amount(g: Grid, active: u32, k: int) -> int {
    if spec_line_hit(g, active, k) {
        spec_line_payout(spec_line_of(g, k)) as int
    } else {
        0
    }
}

/// The total payout of a spin: each enabled winning line contributes its own
/// payout once, independently of the others, even where lines share cells.
pub open spec fn spec_total_payout(g: Grid, active: u32) -> int {
    spec_line_amount(g, active, 0) + spec_line_amount(g, active, 1) + spec_line_amount(g, active, 2)
        + spec_line_amount(g, active, 3) + spec_line_amount(g, active, 4)
}

/// Whether cell (r, c) belongs to at least one enabled winning line.
pub open spec fn spec_cell_wins(g: Grid, active: u32, r: int, c: int) -> bool {
    ||| spec_line_hit(g, active, 0) && spec_cell_on_line(0, r, c)
    ||| spec_line_hit(g, active, 1) && spec_cell_on_line(1, r, c)
    ||| spec_line_hit(g, active, 2) && spec_cell_on_line(2, r, c)
    ||| spec_line_hit(g, active, 3) && spec_cell_on_line(3, r, c)
    ||| spec_line_hit(g, active, 4) && spec_cell_on_line(4, r, c)
}

/// Decide whether a line of three symbols is a winning line.
pub fn check_line(line: [Symbol; 3]) -> (win: bool)
    ensures
        win == spec_line_wins(line@),
{
    let ok01 = line[0] == Symbol::Wildcard || line[1] == Symbol::Wildcard || line[0] == line[1];
    let ok02 = line[0] == Symbol::Wildcard || line[2] == Symbol::Wildcard || line[0] == line[2];
    let ok12 = line[1] == Symbol::Wildcard || line[2] == Symbol::Wildcard || line[1] == line[2];
    ok01 && ok02 && ok12
}

/// The payout of a line, resolved against its first non-wildcard symbol;
/// an all-wildcard line pays zero.
pub fn calculate_payout(line: [Symbol; 3]) -> (amount: u32)
    ensures
        amount == spec_line_payout(line@),
{
    if line[0] != Symbol::Wildcard {
        symbol_payout(line[0])
    } else if line[1] != Symbol::Wildcard {
        symbol_payout(line[1])
    } else if line[2] != Symbol::Wildcard {
        symbol_payout(line[2])
    } else {
        0
    }
}

/// Evaluate a spin: walk the paylines enabled by `lines` in the fixed
/// priority order, add each winning line's payout to the total, and mark
/// every cell of each winning line in the mask. Callers must clamp the
/// active-line count to [1, 5] beforehand.
#[verifier::rlimit(60)]
pub fn check_win(result: Grid, lines: u32) -> (outcome: (u32, WinMask))
    requires
        1 <= lines <= 5,
    ensures
        outcome.0 as int == spec_total_payout(result, lines),
        forall|r: int, c: int|
            0 <= r < 3 && 0 <= c < 3 ==> #[trigger] outcome.1[r][c] == spec_cell_wins(
                result,
                lines,
                r,
                c,
            ),
{
    let line0 = result[0];
    let line1 = result[1];
    let line2 = result[2];
    let line3 = [result[0][0], result[1][1], result[2][2]];
    let line4 = [result[0][2], result[1][1], result[2][0]];
    proof {
        assert(line0@ =~= spec_line_of(result, 0));
        assert(line1@ =~= spec_line_of(result, 1));
        assert(line2@ =~= spec_line_of(result, 2));
        assert(line3@ =~= spec_line_of(result, 3));
        assert(line4@ =~= spec_line_of(result, 4));
    }
    let hit0 = check_line(line0);
    let hit1 = lines >= 2 && check_line(line1);
    let hit2 = lines >= 3 && check_line(line2);
    let hit3 = lines >= 4 && check_line(line3);
    let hit4 = lines >= 5 && check_line(line4);
    let pay0: u32 = if hit0 { calculate_payout(line0) } else { 0 };
    let pay1: u32 = if hit1 { calculate_payout(line1) } else { 0 };
    let pay2: u32 = if hit2 { calculate_payout(line2) } else { 0 };
    let pay3: u32 = if hit3 { calculate_payout(line3) } else { 0 };
    let pay4: u32 = if hit4 { calculate_payout(line4) } else { 0 };
    proof {
        crate::symbol::lemma_payout_bounded(spec_paying_symbol(line0@));
        crate::symbol::lemma_payout_bounded(spec_paying_symbol(line1@));
        crate::symbol::lemma_payout_bounded(spec_paying_symbol(line2@));
        crate::symbol::lemma_payout_bounded(spec_paying_symbol(line3@));
        crate::symbol::lemma_payout_bounded(spec_paying_symbol(line4@));
    }
    let winnings: u32 = pay0 + pay1 + pay2 + pay3 + pay4;
    let mask: WinMask = [
        [hit0 || hit3, hit0, hit0 || hit4],
        [hit1, hit1 || hit3 || hit4, hit1],
        [hit2 || hit4, hit2, hit2 || hit3],
    ];
    proof {
        assert(hit0 == spec_line_hit(result, lines, 0));
        assert(hit1 == spec_line_hit(result, lines, 1));
        assert(hit2 == spec_line_hit(result, lines, 2));
        assert(hit3 == spec_line_hit(result, lines, 3));
        assert(hit4 == spec_line_hit(result, lines, 4));
        assert forall|r: int, c: int| 0 <= r < 3 && 0 <= c < 3 implies mask[r][c]
            == spec_cell_wins(result, lines, r, c) by {
            assert(mask[0][0] == (hit0 || hit3));
            assert(mask[0][1] == hit0);
            assert(mask[0][2] == (hit0 || hit4));
            assert(mask[1][0] == hit1);
            assert(mask[1][1] == (hit1 || hit3 || hit4));
            assert(mask[1][2] == hit1);
            assert(mask[2][0] == (hit2 || hit4));
            assert(mask[2][1] == hit2);
            assert(mask[2][2] == (hit2 || hit3));
        }
    }
    (winnings, mask)
}

} // verus!

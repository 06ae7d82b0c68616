//! The general laws of the payline rules, stated and proved once for all
//! grids and lines.

use vstd::prelude::*;
use crate::evaluator::Grid;
use crate::evaluator::spec_cell_on_line;
use crate::evaluator::spec_cell_wins;
use crate::evaluator::spec_line_amount;
use crate::evaluator::spec_line_enabled;
use crate::evaluator::spec_line_hit;
use crate::evaluator::spec_line_of;
use crate::evaluator::spec_line_payout;
use crate::evaluator::spec_line_wins;
use crate::evaluator::spec_total_payout;
use crate::symbol::Symbol;
use crate::symbol::spec_payout;

verus! {

/// A line without wildcards wins exactly when its three symbols are
/// pairwise equal.
pub proof fn lemma_no_wildcard_win(line: Seq<Symbol>)
    requires
        line.len() == 3,
        forall|i: int| 0 <= i < 3 ==> line[i] != Symbol::Wildcard,
    ensures
        spec_line_wins(line) <==> (line[0] == line[1] && line[1] == line[2]),
{
    assert(line[0] != Symbol::Wildcard);
    assert(line[1] != Symbol::Wildcard);
    assert(line[2] != Symbol::Wildcard);
}

/// A line with at least one wildcard wins exactly when its non-wildcard
/// symbols are pairwise equal: vacuously so with no or one non-wildcard,
/// and in particular an all-wildcard line wins.
pub proof fn lemma_wildcard_win(line: Seq<Symbol>)
    requires
        line.len() == 3,
        exists|i: int| 0 <= i < 3 && line[i] == Symbol::Wildcard,
    ensures
        spec_line_wins(line) <==> (forall|i: int, j: int|
            0 <= i < 3 && 0 <= j < 3 && line[i] != Symbol::Wildcard && line[j] != Symbol::Wildcard
                ==> line[i] == line[j]),
{
    if spec_line_wins(line) {
        assert forall|i: int, j: int|
            0 <= i < 3 && 0 <= j < 3 && line[i] != Symbol::Wildcard && line[j]
                != Symbol::Wildcard implies line[i] == line[j] by {
            assert(line[0] == line[0] && line[1] == line[1] && line[2] == line[2]);
        }
    }
}

/// Payout resolution always selects the first non-wildcard symbol scanning
/// left to right; a wildcard never influences the amount. An all-wildcard
/// line resolves to its first cell, the wildcard itself, and so pays zero.
pub proof fn lemma_payout_first_non_wildcard(line: Seq<Symbol>)
    requires
        line.len() == 3,
    ensures
        line[0] != Symbol::Wildcard ==> spec_line_payout(line) == spec_payout(line[0]),
        line[0] == Symbol::Wildcard && line[1] != Symbol::Wildcard ==> spec_line_payout(line)
            == spec_payout(line[1]),
        line[0] == Symbol::Wildcard && line[1] == Symbol::Wildcard && line[2] != Symbol::Wildcard
            ==> spec_line_payout(line) == spec_payout(line[2]),
        line[0] == Symbol::Wildcard && line[1] == Symbol::Wildcard && line[2] == Symbol::Wildcard
            ==> spec_line_payout(line) == 0,
{
}

/// The active-line count enables exactly a prefix of the fixed priority
/// order: rows 0..2 in turn, then the main diagonal, then the anti-diagonal.
pub proof fn lemma_prefix_order(active: u32)
    requires
        1 <= active <= 5,
    ensures
        forall|k: int| 0 <= k < 5 ==> (spec_line_enabled(active, k) <==> k < active),
{
}

/// No line outside the enabled prefix contributes anything, whatever its
/// content: two grids that agree on every enabled line produce the same
/// total payout and the same win mask.
pub proof fn lemma_prefix_gating(g1: Grid, g2: Grid, active: u32)
    requires
        1 <= active <= 5,
        forall|k: int|
            0 <= k < 5 && spec_line_enabled(active, k) ==> spec_line_of(g1, k) == spec_line_of(
                g2,
                k,
            ),
    ensures
        spec_total_payout(g1, active) == spec_total_payout(g2, active),
        forall|r: int, c: int|
            0 <= r < 3 && 0 <= c < 3 ==> spec_cell_wins(g1, active, r, c) == spec_cell_wins(
                g2,
                active,
                r,
                c,
            ),
{
    assert forall|k: int| 0 <= k < 5 implies spec_line_amount(g1, active, k) == spec_line_amount(
        g2,
        active,
        k,
    ) && spec_line_hit(g1, active, k) == spec_line_hit(g2, active, k) by {
        if spec_line_enabled(active, k) {
            assert(spec_line_of(g1, k) == spec_line_of(g2, k));
        }
    }
    assert(spec_line_amount(g1, active, 0) == spec_line_amount(g2, active, 0));
    assert(spec_line_amount(g1, active, 1) == spec_line_amount(g2, active, 1));
    assert(spec_line_amount(g1, active, 2) == spec_line_amount(g2, active, 2));
    assert(spec_line_amount(g1, active, 3) == spec_line_amount(g2, active, 3));
    assert(spec_line_amount(g1, active, 4) == spec_line_amount(g2, active, 4));
}

/// Every cell of an enabled winning line is marked in the win mask.
pub proof fn lemma_mask_marks_winning_lines(g: Grid, active: u32, k: int, r: int, c: int)
    requires
        0 <= k < 5,
        spec_line_hit(g, active, k),
        spec_cell_on_line(k, r, c),
    ensures
        spec_cell_wins(g, active, r, c),
{
}

/// A cell is marked only because some enabled winning line runs through it:
/// cells that belong only to losing or disabled lines stay unmarked.
pub proof fn lemma_mask_only_winning_lines(g: Grid, active: u32, r: int, c: int)
    requires
        spec_cell_wins(g, active, r, c),
    ensures
        exists|k: int| 0 <= k < 5 && #[trigger] spec_line_hit(g, active, k) && spec_cell_on_line(
            k,
            r,
            c,
        ),
{
    if spec_line_hit(g, active, 0) && spec_cell_on_line(0, r, c) {
        assert(spec_line_hit(g, active, 0) && spec_cell_on_line(0, r, c));
    } else if spec_line_hit(g, active, 1) && spec_cell_on_line(1, r, c) {
        assert(spec_line_hit(g, active, 1) && spec_cell_on_line(1, r, c));
    } else if spec_line_hit(g, active, 2) && spec_cell_on_line(2, r, c) {
        assert(spec_line_hit(g, active, 2) && spec_cell_on_line(2, r, c));
    } else if spec_line_hit(g, active, 3) && spec_cell_on_line(3, r, c) {
        assert(spec_line_hit(g, active, 3) && spec_cell_on_line(3, r, c));
    } else {
        assert(spec_line_hit(g, active, 4) && spec_cell_on_line(4, r, c));
    }
}

/// Each enabled winning line contributes its own payout to the total once,
/// independently of the others: a cell shared by two winning lines (such as
/// the centre cell of the two diagonals) is marked once but both lines'
/// payouts are counted in full.
pub proof fn lemma_total_counts_each_line_once(g: Grid, active: u32)
    ensures
        spec_total_payout(g, active) == spec_line_amount(g, active, 0) + spec_line_amount(
            g,
            active,
            1,
        ) + spec_line_amount(g, active, 2) + spec_line_amount(g, active, 3) + spec_line_amount(
            g,
            active,
            4,
        ),
        forall|k: int|
            0 <= k < 5 && #[trigger] spec_line_hit(g, active, k) ==> spec_line_amount(g, active, k)
                == spec_line_payout(spec_line_of(g, k)) as int,
{
}

/// A grid on which no enabled line wins pays exactly zero and leaves the
/// whole win mask false, whatever the active-line count.
pub proof fn lemma_no_win_pays_nothing(g: Grid, active: u32)
    requires
        forall|k: int|
            0 <= k < 5 && spec_line_enabled(active, k) ==> !spec_line_wins(
                #[trigger] spec_line_of(g, k),
            ),
    ensures
        spec_total_payout(g, active) == 0,
        forall|r: int, c: int| 0 <= r < 3 && 0 <= c < 3 ==> !spec_cell_wins(g, active, r, c),
{
    assert forall|k: int| 0 <= k < 5 implies !spec_line_hit(g, active, k) by {
        if spec_line_enabled(active, k) {
            assert(!spec_line_wins(spec_line_of(g, k)));
        }
    }
    assert(!spec_line_hit(g, active, 0));
    assert(!spec_line_hit(g, active, 1));
    assert(!spec_line_hit(g, active, 2));
    assert(!spec_line_hit(g, active, 3));
    assert(!spec_line_hit(g, active, 4));
}

} // verus!

use slot_machine::evaluator::calculate_payout;
use slot_machine::evaluator::check_line;
use slot_machine::evaluator::check_win;
use slot_machine::symbol::Symbol;

const S: Symbol = Symbol::Spade;
const H: Symbol = Symbol::Heart;
const D: Symbol = Symbol::Diamond;
const C: Symbol = Symbol::Club;
const W: Symbol = Symbol::Wildcard;
const J: Symbol = Symbol::Jackpot;

#[test]
fn no_wildcard_line_wins_only_when_identical() {
    assert!(check_line([S, S, S]));
    assert!(check_line([J, J, J]));
    assert!(!check_line([S, S, H]));
    assert!(!check_line([S, H, S]));
    assert!(!check_line([H, S, S]));
    assert!(!check_line([S, H, D]));
}

#[test]
fn wildcard_line_wins_when_non_wildcards_agree() {
    assert!(check_line([W, H, H]));
    assert!(!check_line([W, H, S]));
    assert!(check_line([W, W, C]));
    assert!(check_line([C, W, W]));
    assert!(check_line([W, C, W]));
    assert!(check_line([W, W, W]));
    assert!(check_line([S, W, S]));
    assert!(!check_line([S, W, H]));
}

#[test]
fn payout_follows_first_non_wildcard() {
    assert_eq!(calculate_payout([W, S, S]), 10);
    assert_eq!(calculate_payout([W, H, H]), 20);
    assert_eq!(calculate_payout([W, W, C]), 40);
    assert_eq!(calculate_payout([H, W, W]), 20);
    assert_eq!(calculate_payout([D, D, D]), 30);
    assert_eq!(calculate_payout([J, J, J]), 100);
}

#[test]
fn all_wildcard_line_wins_but_pays_nothing() {
    assert!(check_line([W, W, W]));
    assert_eq!(calculate_payout([W, W, W]), 0);
}

#[test]
fn active_lines_gate_a_prefix_of_the_paylines() {
    // Only row 1 and row 2 win; neither diagonal does.
    let grid = [[S, H, D], [C, C, C], [H, H, H]];
    let (total1, mask1) = check_win(grid, 1);
    assert_eq!(total1, 0);
    assert_eq!(mask1, [[false; 3]; 3]);
    let (total2, _) = check_win(grid, 2);
    assert_eq!(total2, 40);
    let (total3, mask3) = check_win(grid, 3);
    assert_eq!(total3, 60);
    assert_eq!(mask3, [[false, false, false], [true, true, true], [true, true, true]]);
    let (total5, mask5) = check_win(grid, 5);
    assert_eq!(total5, 60);
    assert_eq!(mask5, mask3);
}

#[test]
fn diagonals_enabled_only_from_four_lines_up() {
    // Both diagonals win through the wildcard centre; no row wins.
    let grid = [[S, H, D], [H, W, C], [D, J, S]];
    let (total3, mask3) = check_win(grid, 3);
    assert_eq!(total3, 0);
    assert_eq!(mask3, [[false; 3]; 3]);
    let (total4, mask4) = check_win(grid, 4);
    assert_eq!(total4, 10);
    assert_eq!(mask4, [[true, false, false], [false, true, false], [false, false, true]]);
    let (total5, mask5) = check_win(grid, 5);
    assert_eq!(total5, 40);
    assert_eq!(mask5, [[true, false, true], [false, true, false], [true, false, true]]);
}

#[test]
fn shared_centre_cell_pays_both_diagonals_in_full() {
    // Main diagonal D,D,D wins; anti-diagonal C,D,C does not.
    let grid = [[D, H, C], [S, D, J], [C, H, D]];
    let (total, mask) = check_win(grid, 5);
    assert_eq!(total, 30);
    assert!(mask[1][1]);
    // Main diagonal D,W,D pays 30; anti-diagonal W,W,W wins but pays 0;
    // the centre cell is shared, yet both contributions count in full.
    let grid2 = [[D, H, W], [S, W, J], [W, H, D]];
    let (total2, mask2) = check_win(grid2, 5);
    assert_eq!(total2, 30);
    assert_eq!(mask2, [[true, false, true], [false, true, false], [true, false, true]]);
}

#[test]
fn no_winning_line_pays_zero_and_marks_nothing() {
    let grid = [[S, H, D], [C, J, S], [H, D, C]];
    for lines in 1..=5u32 {
        let (total, mask) = check_win(grid, lines);
        assert_eq!(total, 0);
        assert_eq!(mask, [[false; 3]; 3]);
    }
}

#[test]
fn end_to_end_scenario() {
    let grid = [[S, S, S], [H, D, C], [J, H, C]];
    let (total, mask) = check_win(grid, 5);
    assert_eq!(total, 10);
    assert_eq!(mask, [[true, true, true], [false, false, false], [false, false, false]]);
}

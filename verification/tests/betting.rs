use slot_machine::betting::adjust_bet_amount;

#[test]
fn affordable_stake_is_left_alone() {
    let mut bet: u32 = 5;
    let mut lines: u32 = 3;
    adjust_bet_amount(20, &mut bet, &mut lines);
    assert_eq!(bet, 5);
    assert_eq!(lines, 3);
}

#[test]
fn lines_give_way_before_the_bet() {
    let mut bet: u32 = 3;
    let mut lines: u32 = 5;
    adjust_bet_amount(10, &mut bet, &mut lines);
    assert_eq!(bet, 3);
    assert_eq!(lines, 3);
}

#[test]
fn bet_shrinks_to_the_balance_once_lines_hit_one() {
    let mut bet: u32 = 7;
    let mut lines: u32 = 2;
    adjust_bet_amount(4, &mut bet, &mut lines);
    assert_eq!(bet, 4);
    assert_eq!(lines, 1);
}

#[test]
fn empty_balance_bottoms_out_at_one_and_one() {
    let mut bet: u32 = 2;
    let mut lines: u32 = 2;
    adjust_bet_amount(0, &mut bet, &mut lines);
    assert_eq!(bet, 1);
    assert_eq!(lines, 1);
}

#[test]
fn exact_fit_on_the_last_line_is_kept() {
    let mut bet: u32 = 4;
    let mut lines: u32 = 5;
    adjust_bet_amount(8, &mut bet, &mut lines);
    assert_eq!(bet, 4);
    assert_eq!(lines, 2);
}

use slot_machine::generator::spin;
use slot_machine::symbol::Symbol;
use slot_machine::symbol::symbol_of_index;
use slot_machine::symbol::symbol_payout;

#[test]
fn payout_table_is_fixed() {
    assert_eq!(symbol_payout(Symbol::Spade), 10);
    assert_eq!(symbol_payout(Symbol::Heart), 20);
    assert_eq!(symbol_payout(Symbol::Diamond), 30);
    assert_eq!(symbol_payout(Symbol::Club), 40);
    assert_eq!(symbol_payout(Symbol::Wildcard), 0);
    assert_eq!(symbol_payout(Symbol::Jackpot), 100);
}

#[test]
fn reel_order_covers_the_whole_alphabet() {
    let reel = [
        symbol_of_index(0),
        symbol_of_index(1),
        symbol_of_index(2),
        symbol_of_index(3),
        symbol_of_index(4),
        symbol_of_index(5),
    ];
    assert_eq!(
        reel,
        [
            Symbol::Spade,
            Symbol::Heart,
            Symbol::Diamond,
            Symbol::Club,
            Symbol::Wildcard,
            Symbol::Jackpot,
        ]
    );
}

fn symbol_slot(s: Symbol) -> usize {
    match s {
        Symbol::Spade => 0,
        Symbol::Heart => 1,
        Symbol::Diamond => 2,
        Symbol::Club => 3,
        Symbol::Wildcard => 4,
        Symbol::Jackpot => 5,
    }
}

#[test]
fn spin_draws_roughly_uniform_symbols() {
    // 10000 spins give 90000 cell draws, 15000 expected per symbol; the
    // bounds are generous enough that a uniform source virtually never
    // strays outside them.
    let mut counts = [0usize; 6];
    for _ in 0..10_000 {
        let grid = spin();
        for row in grid.iter() {
            for &cell in row.iter() {
                counts[symbol_slot(cell)] += 1;
            }
        }
    }
    let total: usize = counts.iter().sum();
    assert_eq!(total, 90_000);
    for &count in counts.iter() {
        assert!(count > 10_000, "symbol drawn far too rarely: {count}");
        assert!(count < 20_000, "symbol drawn far too often: {count}");
    }
}

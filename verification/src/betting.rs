//! Host-side stake adjustment: shrink a remembered bet until the balance
//! covers it.

use vstd::prelude::*;

verus! {

/// Shrink a remembered stake until the balance covers it: the line count
/// gives way first, one line at a time down to one; only then is the bet
/// amount reduced, down to one at the lowest. The result is maximal: lines
/// stop shrinking as soon as the stake fits, and the bet stops at the
/// largest affordable amount (or at one when even that is too much).
pub fn adjust_bet_amount(balance: u32, bet_amount: &mut u32, lines: &mut u32)
    requires
        *old(bet_amount) * *old(lines) <= u32::MAX,
    ensures
        *final(bet_amount) <= *old(bet_amount),
        *final(lines) <= *old(lines),
        *old(bet_amount) * *old(lines) <= balance ==> *final(bet_amount) == *old(bet_amount)
            && *final(lines) == *old(lines),
        *old(bet_amount) * *old(lines) > balance && *old(bet_amount) <= balance
            ==> *final(bet_amount) == *old(bet_amount) && 1 <= *final(lines)
            && *old(bet_amount) * *final(lines) <= balance
            && *old(bet_amount) * (*final(lines) + 1) > balance,
        *old(bet_amount) * *old(lines) > balance && *old(bet_amount) > balance && balance >= 1
            ==> *final(bet_amount) == balance && *final(lines) == 1,
        *old(bet_amount) * *old(lines) > balance && *old(bet_amount) > balance && balance == 0
            ==> *final(bet_amount) == 1 && *final(lines) == 1,
{
    let ghost ob: int = *old(bet_amount) as int;
    let ghost ol: int = *old(lines) as int;
    let mut bet: u32 = *bet_amount;
    let mut n: u32 = *lines;
    while bet * n > balance && (n > 1 || bet > 1)
        invariant
            bet <= ob,
            n <= ol,
            bet * n <= ob * ol,
            ob * ol <= u32::MAX,
            ob * ol <= balance ==> bet == ob && n == ol,
            ol >= 1 ==> n >= 1,
            ob >= 1 ==> bet >= 1,
            n < ol ==> ob * (n + 1) > balance,
            bet < ob ==> n == 1 && bet >= balance && ob > balance,
        decreases bet + n,
    {
        if n > 1 {
            proof {
                assert(bet == ob) by {
                    if bet < ob {
                        assert(n == 1);
                    }
                };
                assert(bet * (n - 1) <= bet * n) by (nonlinear_arith)
                    requires
                        bet >= 0,
                        n >= 1,
                ;
            }
            n = n - 1;
        } else {
            proof {
                assert(bet - 1 <= bet * n) by (nonlinear_arith)
                    requires
                        n >= 1,
                        bet >= 1,
                ;
            }
            bet = bet - 1;
        }
    }
    proof {
        if ob * ol > balance {
            assert(ol >= 1);
            assert(ob >= 1) by {
                if ob == 0 {
                    assert(ob * ol == 0);
                }
            };
            if ob <= balance {
                assert(bet == ob);
                assert(!(n <= 1 && bet <= 1) || ob * n <= balance) by (nonlinear_arith)
                    requires
                        n >= 1,
                        bet == ob,
                        1 <= ob <= balance,
                ;
                assert(ob * n <= balance);
                assert(n < ol) by {
                    if n == ol {
                        assert(ob * n > balance);
                    }
                };
            } else {
                // ob > balance: any stake with the original bet overshoots,
                // so the loop must have reached n == 1 and reduced the bet.
                if bet == ob {
                    assert(bet * n >= ob) by (nonlinear_arith)
                        requires
                            n >= 1,
                            bet == ob,
                            ob >= 0,
                    ;
                    assert(n == 1 && bet == 1);
                    assert(balance == 0);
                } else {
                    assert(n == 1 && bet >= balance);
                    if bet * n <= balance {
                        assert(bet == balance);
                    } else {
                        assert(n <= 1 && bet <= 1);
                        assert(balance == 0);
                    }
                }
            }
        }
    }
    *bet_amount = bet;
    *lines = n;
}

} // verus!

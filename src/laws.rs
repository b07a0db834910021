use vstd::prelude::*;

use crate::model::{Pubkey, Match, purchase_fits, purchased, may_settle, settled, settle_notice, STATUS_SETTLED};

verus! {

/// The sum of a sequence of purchase amounts.
pub open spec fn amount_sum(amounts: Seq<u64>) -> int
    decreases amounts.len(),
{
    if amounts.len() == 0 {
        0
    } else {
        amount_sum(amounts.drop_last()) + amounts.last()
    }
}

/// Whether every purchase of `amounts`, made in order from `m`, fits.
pub open spec fn all_fit(m: Match, amounts: Seq<u64>) -> bool
    decreases amounts.len(),
{
    if amounts.len() == 0 {
        true
    } else {
        all_fit(m, amounts.drop_last()) && purchase_fits(after_purchases(m, amounts.drop_last()), amounts.last())
    }
}

/// The match after the purchases of `amounts`, made in order from `m`.
pub open spec fn after_purchases(m: Match, amounts: Seq<u64>) -> Match
    decreases amounts.len(),
{
    if amounts.len() == 0 {
        m
    } else {
        purchased(after_purchases(m, amounts.drop_last()), amounts.last())
    }
}

/// After any run of successful purchases against one match, the pot has grown
/// by the sum of their amounts and the counter by their number; everything
/// else is as it was. A run succeeds exactly when the final totals fit.
pub proof fn lemma_pot_is_sum_of_purchases(m: Match, amounts: Seq<u64>)
    ensures
        all_fit(m, amounts) <==> (m.pot + amount_sum(amounts) <= u64::MAX
            && m.purchases + amounts.len() <= u32::MAX),
        all_fit(m, amounts) ==> {
            &&& after_purchases(m, amounts).pot == m.pot + amount_sum(amounts)
            &&& after_purchases(m, amounts).purchases == m.purchases + amounts.len()
            &&& after_purchases(m, amounts).creator == m.creator
            &&& after_purchases(m, amounts).status == m.status
            &&& after_purchases(m, amounts).winner == m.winner
            &&& after_purchases(m, amounts).created_at == m.created_at
        },
    decreases amounts.len(),
{
    if amounts.len() > 0 {
        lemma_pot_is_sum_of_purchases(m, amounts.drop_last());
        lemma_amount_sum_nonneg(amounts.drop_last());
    }
}

proof fn lemma_amount_sum_nonneg(amounts: Seq<u64>)
    ensures
        amount_sum(amounts) >= 0,
    decreases amounts.len(),
{
    if amounts.len() > 0 {
        lemma_amount_sum_nonneg(amounts.drop_last());
    }
}

/// A purchase of zero fits whenever the counter has room, and then counts one
/// more purchase and leaves the pot as it was.
pub proof fn lemma_zero_purchase_keeps_pot(m: Match)
    requires
        m.purchases < u32::MAX,
    ensures
        purchase_fits(m, 0),
        purchased(m, 0).pot == m.pot,
        purchased(m, 0).purchases == m.purchases + 1,
{
}

/// Settling twice by the creator is allowed both times, leaves the match as
/// one settlement with the second winner would, and the second notice carries
/// the second winner and the same pot.
pub proof fn lemma_settle_again(m: Match, signer: Pubkey, addr: Pubkey, first: Option<Pubkey>, second: Option<Pubkey>, t1: i64, t2: i64)
    requires
        may_settle(m, signer),
    ensures
        may_settle(settled(m, first), signer),
        settled(settled(m, first), second) == settled(m, second),
        settled(settled(m, first), second).status == STATUS_SETTLED,
        settle_notice(addr, settled(m, first), second, t2).winner == second,
        settle_notice(addr, settled(m, first), second, t2).pot == settle_notice(addr, m, first, t1).pot,
{
}

} // verus!

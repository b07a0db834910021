use vstd::prelude::*;

use crate::model::{
    Pubkey, Match, Purchase, MatchCreated, PurchaseMade, MatchSettled, MatchError,
    STATUS_PENDING, STATUS_SETTLED, new_match, purchase_fits, purchased, may_settle, settled,
    settle_notice,
};

verus! {

/// The records of a match creation: the new match record, its address, and the
/// signer who creates and pays for it.
#[derive(Clone, Copy, Debug, PartialEq, Eq)]
pub struct CreateMatch {
    pub match_addr: Pubkey,
    pub match_acc: Match,
    pub creator: Pubkey,
}

/// The records of a purchase: the existing match, the new purchase record, and
/// the signer who buys and pays for it.
#[derive(Clone, Copy, Debug, PartialEq, Eq)]
pub struct MakePurchase {
    pub match_addr: Pubkey,
    pub match_acc: Match,
    pub purchase: Purchase,
    pub buyer: Pubkey,
}

/// The records of a settlement: the existing match and the signer who settles it.
#[derive(Clone, Copy, Debug, PartialEq, Eq)]
pub struct SettleMatch {
    pub match_addr: Pubkey,
    pub match_acc: Match,
    pub creator: Pubkey,
}

/// Initializes the match record as pending, with an empty pot, no winner and no
/// purchases, created by the signer at `now`; returns the creation notice.
pub fn create_match(ctx: &mut CreateMatch, now: i64) -> (r: MatchCreated)
    ensures
        final(ctx).match_acc == new_match(old(ctx).creator, now),
        final(ctx).match_addr == old(ctx).match_addr,
        final(ctx).creator == old(ctx).creator,
        r == (MatchCreated { match_addr: old(ctx).match_addr, creator: old(ctx).creator, timestamp: now }),
{
    ctx.match_acc = Match {
        creator: ctx.creator,
        status: STATUS_PENDING,
        pot: 0,
        winner: None,
        created_at: now,
        purchases: 0,
    };
    MatchCreated { match_addr: ctx.match_addr, creator: ctx.creator, timestamp: ctx.match_acc.created_at }
}

/// Records a purchase of `amount` with `effect_type` by the signer at `now`:
/// fills the purchase record, adds `amount` to the pot and counts the purchase.
/// Where the pot or the counter would overflow, nothing changes and the error
/// says which.
pub fn make_purchase(ctx: &mut MakePurchase, effect_type: u8, amount: u64, now: i64) -> (r: Result<PurchaseMade, MatchError>)
    ensures
        r is Ok <==> purchase_fits(old(ctx).match_acc, amount),
        r == Err::<PurchaseMade, MatchError>(MatchError::PotOverflow)
            <==> old(ctx).match_acc.pot + amount > u64::MAX,
        r == Err::<PurchaseMade, MatchError>(MatchError::PurchaseCountOverflow)
            <==> (old(ctx).match_acc.pot + amount <= u64::MAX && old(ctx).match_acc.purchases + 1 > u32::MAX),
        r is Err ==> *final(ctx) == *old(ctx),
        r is Ok ==> {
            &&& final(ctx).match_acc == purchased(old(ctx).match_acc, amount)
            &&& final(ctx).purchase == (Purchase {
                buyer: old(ctx).buyer,
                match_id: old(ctx).match_addr,
                effect_type,
                amount,
                timestamp: now,
            })
            &&& final(ctx).match_addr == old(ctx).match_addr
            &&& final(ctx).buyer == old(ctx).buyer
            &&& r == Ok::<PurchaseMade, MatchError>(PurchaseMade {
                buyer: old(ctx).buyer,
                match_addr: old(ctx).match_addr,
                effect_type,
                amount,
                timestamp: now,
            })
        },
{
    let pot = match ctx.match_acc.pot.checked_add(amount) {
        Some(p) => p,
        None => return Err(MatchError::PotOverflow),
    };
    let purchases = match ctx.match_acc.purchases.checked_add(1) {
        Some(n) => n,
        None => return Err(MatchError::PurchaseCountOverflow),
    };
    ctx.purchase = Purchase {
        buyer: ctx.buyer,
        match_id: ctx.match_addr,
        effect_type,
        amount,
        timestamp: now,
    };
    ctx.match_acc.pot = pot;
    ctx.match_acc.purchases = purchases;
    Ok(PurchaseMade {
        buyer: ctx.buyer,
        match_addr: ctx.match_addr,
        effect_type,
        amount,
        timestamp: ctx.purchase.timestamp,
    })
}

/// Settles the match with `winner` at `now` when the signer is its recorded
/// creator, and returns the settlement notice with the pot at that moment.
/// Any other signer gets `NotCreator` and nothing changes.
pub fn settle_match(ctx: &mut SettleMatch, winner: Option<Pubkey>, now: i64) -> (r: Result<MatchSettled, MatchError>)
    ensures
        r is Ok <==> may_settle(old(ctx).match_acc, old(ctx).creator),
        r is Err ==> r == Err::<MatchSettled, MatchError>(MatchError::NotCreator) && *final(ctx) == *old(ctx),
        r is Ok ==> {
            &&& final(ctx).match_acc == settled(old(ctx).match_acc, winner)
            &&& final(ctx).match_addr == old(ctx).match_addr
            &&& final(ctx).creator == old(ctx).creator
            &&& r == Ok::<MatchSettled, MatchError>(settle_notice(old(ctx).match_addr, old(ctx).match_acc, winner, now))
        },
{
    if ctx.creator != ctx.match_acc.creator {
        return Err(MatchError::NotCreator);
    }
    ctx.match_acc.status = STATUS_SETTLED;
    ctx.match_acc.winner = winner;
    Ok(MatchSettled { match_addr: ctx.match_addr, winner, pot: ctx.match_acc.pot, timestamp: now })
}

} // verus!

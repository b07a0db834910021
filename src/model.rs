use vstd::prelude::*;

verus! {

/// Status of a match that has been created and not settled.
pub const STATUS_PENDING: u8 = 0;

/// Declared status that no handler sets; kept so stored values stay meaningful.
pub const STATUS_ACTIVE: u8 = 1;

/// Status of a match whose creator has settled it.
pub const STATUS_SETTLED: u8 = 2;

/// A ledger identity: the 32 bytes of an account or signer address.
#[derive(Clone, Copy, Debug)]
pub struct Pubkey {
    pub bytes: [u8; 32],
}

impl Pubkey {
    pub fn new(bytes: [u8; 32]) -> (r: Pubkey)
        ensures
            r.bytes == bytes,
    {
        Pubkey { bytes }
    }

    pub fn to_bytes(&self) -> (r: [u8; 32])
        ensures
            r == self.bytes,
    {
        self.bytes
    }
}

impl PartialEq for Pubkey {
    fn eq(&self, o: &Pubkey) -> (r: bool) {
        let mut i: usize = 0;
        while i < 32
            invariant
                0 <= i <= 32,
                forall|j: int| 0 <= j < i ==> self.bytes[j] == o.bytes[j],
            decreases 32 - i,
        {
            if self.bytes[i] != o.bytes[i] {
                return false;
            }
            i = i + 1;
        }
        proof {
            assert(self.bytes =~= o.bytes);
        }
        true
    }
}

impl Eq for Pubkey {
}

impl vstd::std_specs::cmp::PartialEqSpecImpl for Pubkey {
    open spec fn obeys_eq_spec() -> bool {
        true
    }

    open spec fn eq_spec(&self, o: &Pubkey) -> bool {
        *self == *o
    }
}

/// The stored state of one match.
#[derive(Clone, Copy, Debug, PartialEq, Eq)]
pub struct Match {
    pub creator: Pubkey,
    pub status: u8,
    pub pot: u64,
    pub winner: Option<Pubkey>,
    pub created_at: i64,
    pub purchases: u32,
}

/// The stored record of one purchase against a match.
#[derive(Clone, Copy, Debug, PartialEq, Eq)]
pub struct Purchase {
    pub buyer: Pubkey,
    pub match_id: Pubkey,
    pub effect_type: u8,
    pub amount: u64,
    pub timestamp: i64,
}

/// Notification emitted when a match is created.
#[derive(Clone, Copy, Debug, PartialEq, Eq)]
pub struct MatchCreated {
    pub match_addr: Pubkey,
    pub creator: Pubkey,
    pub timestamp: i64,
}

/// Notification emitted when a purchase is recorded.
#[derive(Clone, Copy, Debug, PartialEq, Eq)]
pub struct PurchaseMade {
    pub buyer: Pubkey,
    pub match_addr: Pubkey,
    pub effect_type: u8,
    pub amount: u64,
    pub timestamp: i64,
}

/// Notification emitted when a match is settled.
#[derive(Clone, Copy, Debug, PartialEq, Eq)]
pub struct MatchSettled {
    pub match_addr: Pubkey,
    pub winner: Option<Pubkey>,
    pub pot: u64,
    pub timestamp: i64,
}

/// Why a handler refused to change any record.
#[derive(Clone, Copy, Debug, PartialEq, Eq, Structural)]
pub enum MatchError {
    /// Adding the amount would carry the pot past `u64::MAX`.
    PotOverflow,
    /// Counting one more purchase would carry the counter past `u32::MAX`.
    PurchaseCountOverflow,
    /// The signer is not the creator recorded in the match.
    NotCreator,
}

/// The match that `create_match` writes for `creator` at time `now`.
pub open spec fn new_match(creator: Pubkey, now: i64) -> Match {
    Match {
        creator,
        status: STATUS_PENDING,
        pot: 0,
        winner: None,
        created_at: now,
        purchases: 0,
    }
}

/// Whether a purchase of `amount` fits in the pot and the purchase counter.
pub open spec fn purchase_fits(m: Match, amount: u64) -> bool {
    &&& m.pot + amount <= u64::MAX
    &&& m.purchases + 1 <= u32::MAX
}

/// The match after a purchase of `amount` that fits.
pub open spec fn purchased(m: Match, amount: u64) -> Match
    recommends
        purchase_fits(m, amount),
{
    Match { pot: (m.pot + amount) as u64, purchases: (m.purchases + 1) as u32, ..m }
}

/// Whether `signer` may settle `m`.
pub open spec fn may_settle(m: Match, signer: Pubkey) -> bool {
    signer == m.creator
}

/// The match after it is settled with `winner`.
pub open spec fn settled(m: Match, winner: Option<Pubkey>) -> Match {
    Match { status: STATUS_SETTLED, winner, ..m }
}

/// The notification of settling the match at `addr`, in state `m`, with `winner` at `now`.
pub open spec fn settle_notice(addr: Pubkey, m: Match, winner: Option<Pubkey>, now: i64) -> MatchSettled {
    MatchSettled { match_addr: addr, winner, pot: m.pot, timestamp: now }
}

} // verus!

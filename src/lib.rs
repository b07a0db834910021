//! A match lifecycle over ledger records: a match is created, purchases add to
//! its pot, and its creator settles it with a winner. Each handler works on the
//! records it is given, changes them in place, and returns the notification to
//! emit. The host runtime allocates records, supplies the clock and emits.

use vstd::prelude::*;

pub mod model;
pub mod handlers;
pub mod laws;

pub use model::{Pubkey, Match, Purchase, MatchCreated, PurchaseMade, MatchSettled, MatchError};
pub use model::{STATUS_PENDING, STATUS_ACTIVE, STATUS_SETTLED};
pub use handlers::{CreateMatch, MakePurchase, SettleMatch, create_match, make_purchase, settle_match};

use vstd::prelude::*;

verus! {

/// Smallest unlocked balance, in atomic units, that a release will sweep.
pub const MIN_UNLOCKED: u64 = 20000;

/// What the wallet daemon answered to a balance query for one address index.
#[derive(PartialEq, Eq, Structural, Clone, Copy, Debug)]
pub enum BalanceReply {
    /// The query did not get an answer that could be read.
    Unreachable,
    /// Confirmed and unlocked balance, in atomic units.
    Balances { confirmed: u64, unlocked: u64 },
}

/// Whether an unlocked balance is enough to release.
pub fn meets_threshold(unlocked: u64) -> (r: bool)
    ensures
        r == (unlocked >= MIN_UNLOCKED),
{
    unlocked >= MIN_UNLOCKED
}

/// The confirmed and unlocked balance shown for information: the daemon's
/// answer, or zeros where there is none.
pub open spec fn shown_balances(reply: BalanceReply) -> (u64, u64) {
    match reply {
        BalanceReply::Unreachable => (0, 0),
        BalanceReply::Balances { confirmed, unlocked } => (confirmed, unlocked),
    }
}

/// The pair shown for information; never used to decide a release.
pub fn display_balances(reply: BalanceReply) -> (r: (u64, u64))
    ensures
        r == shown_balances(reply),
{
    match reply {
        BalanceReply::Unreachable => (0, 0),
        BalanceReply::Balances { confirmed, unlocked } => (confirmed, unlocked),
    }
}

} // verus!

use vstd::prelude::*;
use crate::gate::{display_balances, shown_balances, BalanceReply};
use crate::ledger::{Ledger, StoreError};
use crate::release::Outcome;

verus! {

/// Atomic units in one whole coin.
pub const ATOMIC_PER_COIN: u64 = 1_000_000_000_000;

/// The label that names an outcome to the outside, as in a redirect.
pub open spec fn outcome_code(o: Outcome) -> Seq<char> {
    match o {
        Outcome::Success => "success"@,
        Outcome::AlreadyReleased => "already_released"@,
        Outcome::InvalidPassphrase => "invalid_passphrase"@,
        Outcome::InsufficientFunds => "insufficient_funds"@,
        Outcome::TransferFailed => "transfer_failed"@,
        Outcome::TransferError => "transfer_error"@,
        Outcome::NotFound => "not_found"@,
    }
}

/// The outcome that a label names, if any.
pub open spec fn code_outcome(code: Seq<char>) -> Option<Outcome> {
    if code == "success"@ {
        Some(Outcome::Success)
    } else if code == "already_released"@ {
        Some(Outcome::AlreadyReleased)
    } else if code == "invalid_passphrase"@ {
        Some(Outcome::InvalidPassphrase)
    } else if code == "insufficient_funds"@ {
        Some(Outcome::InsufficientFunds)
    } else if code == "transfer_failed"@ {
        Some(Outcome::TransferFailed)
    } else if code == "transfer_error"@ {
        Some(Outcome::TransferError)
    } else if code == "not_found"@ {
        Some(Outcome::NotFound)
    } else {
        None
    }
}

impl Outcome {
    /// The outcome's label.
    pub fn code(&self) -> (r: &'static str)
        ensures
            r@ == outcome_code(*self),
    {
        match self {
            Outcome::Success => "success",
            Outcome::AlreadyReleased => "already_released",
            Outcome::InvalidPassphrase => "invalid_passphrase",
            Outcome::InsufficientFunds => "insufficient_funds",
            Outcome::TransferFailed => "transfer_failed",
            Outcome::TransferError => "transfer_error",
            Outcome::NotFound => "not_found",
        }
    }

    /// The outcome named by a label; `None` for any other text.
    pub fn from_code(code: &str) -> (r: Option<Outcome>)
        ensures
            r == code_outcome(code@),
    {
        let c = code.to_owned();
        if c == "success".to_owned() {
            Some(Outcome::Success)
        } else if c == "already_released".to_owned() {
            Some(Outcome::AlreadyReleased)
        } else if c == "invalid_passphrase".to_owned() {
            Some(Outcome::InvalidPassphrase)
        } else if c == "insufficient_funds".to_owned() {
            Some(Outcome::InsufficientFunds)
        } else if c == "transfer_failed".to_owned() {
            Some(Outcome::TransferFailed)
        } else if c == "transfer_error".to_owned() {
            Some(Outcome::TransferError)
        } else if c == "not_found".to_owned() {
            Some(Outcome::NotFound)
        } else {
            None
        }
    }

    /// Whether the outcome is shown as an error.
    pub fn is_error(&self) -> (r: bool)
        ensures
            r == (*self != Outcome::Success),
    {
        !matches!(self, Outcome::Success)
    }
}

/// Every outcome's label names that outcome back.
pub proof fn lemma_code_round_trip(o: Outcome)
    ensures
        code_outcome(outcome_code(o)) == Some(o),
{
    reveal_strlit("success");
    reveal_strlit("already_released");
    reveal_strlit("invalid_passphrase");
    reveal_strlit("insufficient_funds");
    reveal_strlit("transfer_failed");
    reveal_strlit("transfer_error");
    reveal_strlit("not_found");
    assert("success"@.len() == 7);
    assert("already_released"@.len() == 16);
    assert("invalid_passphrase"@.len() == 18);
    assert("insufficient_funds"@.len() == 18);
    assert("transfer_failed"@.len() == 15);
    assert("transfer_error"@.len() == 14);
    assert("not_found"@.len() == 9);
    assert("invalid_passphrase"@[2] != "insufficient_funds"@[2]);
}

/// An amount split into whole coins and the atomic units below one coin.
#[derive(PartialEq, Eq, Structural, Clone, Copy, Debug)]
pub struct Amount {
    pub whole: u64,
    pub fraction: u64,
}

/// Splits an amount of atomic units into whole coins and the rest.
pub fn split_amount(units: u64) -> (r: Amount)
    ensures
        r.whole * ATOMIC_PER_COIN + r.fraction == units,
        r.fraction < ATOMIC_PER_COIN,
{
    let r = Amount { whole: units / ATOMIC_PER_COIN, fraction: units % ATOMIC_PER_COIN };
    assert(r.whole * ATOMIC_PER_COIN + r.fraction == units) by (nonlinear_arith)
        requires
            r.whole == units / ATOMIC_PER_COIN,
            r.fraction == units % ATOMIC_PER_COIN,
            ATOMIC_PER_COIN > 0,
    ;
    r
}

/// What a renderer shows of one contract. It holds no passphrase.
pub struct ContractPage {
    pub contract_id: String,
    pub recipient_wallet: String,
    pub contract_wallet: String,
    pub contract_text: String,
    pub released: bool,
    /// Whether the release form is offered: only while unreleased.
    pub form_visible: bool,
    pub balance: Amount,
    pub unlocked_balance: Amount,
    /// The outcome of an earlier release request, to be shown.
    pub notice: Option<Outcome>,
}

impl Ledger {
    /// The page of contract `id`, with a balance that is informative only:
    /// an unanswered query shows as zero.
    pub fn contract_page(&self, id: &str, balance: BalanceReply, notice: Option<Outcome>) -> (r: Result<ContractPage, StoreError>)
        ensures
            !self@.contains_key(id@) ==> r == Err::<ContractPage, StoreError>(StoreError::NotFound),
            self@.contains_key(id@) ==> (r matches Ok(p) && {
                let c = self@[id@];
                &&& p.contract_id@ == c.contract_id
                &&& p.recipient_wallet@ == c.recipient_wallet
                &&& p.contract_wallet@ == c.contract_wallet
                &&& p.contract_text@ == c.contract_text
                &&& p.released == c.released
                &&& p.form_visible == !c.released
                &&& p.balance.whole * ATOMIC_PER_COIN + p.balance.fraction == shown_balances(balance).0
                &&& p.balance.fraction < ATOMIC_PER_COIN
                &&& p.unlocked_balance.whole * ATOMIC_PER_COIN + p.unlocked_balance.fraction == shown_balances(balance).1
                &&& p.unlocked_balance.fraction < ATOMIC_PER_COIN
                &&& p.notice == notice
            }),
    {
        let c = match self.get(id) {
            Ok(c) => c,
            Err(e) => {
                return Err(e);
            },
        };
        let (confirmed, unlocked) = display_balances(balance);
        Ok(ContractPage {
            contract_id: c.contract_id,
            recipient_wallet: c.recipient_wallet,
            contract_wallet: c.contract_wallet,
            contract_text: c.contract_text,
            released: c.released,
            form_visible: !c.released,
            balance: split_amount(confirmed),
            unlocked_balance: split_amount(unlocked),
            notice,
        })
    }
}

} // verus!

use escrow::create::{CreateError, Provisioned, SECRET_LEN};
use escrow::gate::{display_balances, meets_threshold, BalanceReply, MIN_UNLOCKED};
use escrow::ledger::{Ledger, StoreError};
use escrow::record::ContractRecord;
use escrow::release::{Outcome, ReleaseEvent, ReleaseStep, Stage, SweepReply};

fn funded(unlocked: u64) -> BalanceReply {
    BalanceReply::Balances { confirmed: unlocked, unlocked }
}

fn provisioned(address: &str, index: u32) -> Option<Provisioned> {
    Some(Provisioned { address: address.to_string(), index })
}

fn ledger_with(id: &str, secret: &str) -> Ledger {
    let mut l = Ledger::new();
    let r = l.create_with(
        id.to_string(),
        secret.to_string(),
        "terms".to_string(),
        "R1".to_string(),
        provisioned("S1", 7),
    );
    assert_eq!(r, Ok((id.to_string(), secret.to_string())));
    l
}

fn is_released(l: &Ledger, id: &str) -> bool {
    l.get(id).unwrap().released
}

#[test]
fn end_to_end_create_and_release() {
    let mut l = Ledger::new();
    let (id, secret) = l
        .create_contract("pay for goods".to_string(), "R1".to_string(), provisioned("S1", 7))
        .unwrap();
    let c = l.get(&id).unwrap();
    assert_eq!(c.contract_text, "pay for goods");
    assert_eq!(c.recipient_wallet, "R1");
    assert_eq!(c.contract_wallet, "S1");
    assert_eq!(c.address_index, 7);
    assert!(!c.released);

    let o = l.release_with(&id, "wrong".to_string(), funded(25000), SweepReply::Accepted);
    assert_eq!(o, Outcome::InvalidPassphrase);
    assert!(!is_released(&l, &id));

    let o = l.release_with(&id, secret.clone(), funded(25000), SweepReply::Accepted);
    assert_eq!(o, Outcome::Success);
    assert!(is_released(&l, &id));

    let o = l.release_with(&id, secret.clone(), funded(25000), SweepReply::Accepted);
    assert_eq!(o, Outcome::AlreadyReleased);
    assert!(is_released(&l, &id));
}

#[test]
fn release_twice_sweeps_once() {
    let mut l = ledger_with("c1", "pw");
    let mut sweeps = 0;
    let mut outcomes = Vec::new();
    for _ in 0..2 {
        let (mut run, mut step) = l.release_begin("c1", "pw".to_string());
        let outcome = loop {
            step = match step {
                ReleaseStep::QueryBalance { index } => {
                    assert_eq!(index, 7);
                    l.release_step(&mut run, ReleaseEvent::BalanceReported(funded(30000)))
                }
                ReleaseStep::Sweep { destination, index } => {
                    assert_eq!(destination, "R1");
                    assert_eq!(index, 7);
                    sweeps += 1;
                    l.release_step(&mut run, ReleaseEvent::SweepReported(SweepReply::Accepted))
                }
                ReleaseStep::Finished(o) => break o,
            };
        };
        assert_eq!(run.stage(), Stage::Done);
        outcomes.push(outcome);
    }
    assert_eq!(outcomes, vec![Outcome::Success, Outcome::AlreadyReleased]);
    assert_eq!(sweeps, 1);
}

#[test]
fn wrong_passphrase_never_sweeps() {
    let mut l = ledger_with("c1", "pw");
    for unlocked in [0u64, 19999, 20000, 1_000_000] {
        let (run, step) = l.release_begin("c1", "pW".to_string());
        assert!(matches!(step, ReleaseStep::Finished(Outcome::InvalidPassphrase)));
        assert_eq!(run.stage(), Stage::Done);
        let o = l.release_with("c1", "px".to_string(), funded(unlocked), SweepReply::Accepted);
        assert_eq!(o, Outcome::InvalidPassphrase);
        assert!(!is_released(&l, "c1"));
    }
}

#[test]
fn serialized_releases_commit_once() {
    let mut l = ledger_with("c1", "pw");
    let mut outcomes = Vec::new();
    for _ in 0..5 {
        outcomes.push(l.release_with("c1", "pw".to_string(), funded(50000), SweepReply::Accepted));
    }
    assert_eq!(outcomes.iter().filter(|o| **o == Outcome::Success).count(), 1);
    assert_eq!(outcomes[0], Outcome::Success);
    assert!(outcomes[1..].iter().all(|o| *o == Outcome::AlreadyReleased));
}

#[test]
fn failed_transfers_then_one_commit() {
    let mut l = ledger_with("c1", "pw");
    let pw = "pw".to_string();
    assert_eq!(l.release_with("c1", pw.clone(), funded(50000), SweepReply::Rejected), Outcome::TransferFailed);
    assert_eq!(l.release_with("c1", pw.clone(), funded(50000), SweepReply::Unreachable), Outcome::TransferError);
    assert_eq!(l.release_with("c1", pw.clone(), BalanceReply::Unreachable, SweepReply::Accepted), Outcome::TransferError);
    assert!(!is_released(&l, "c1"));
    assert_eq!(l.release_with("c1", pw.clone(), funded(50000), SweepReply::Accepted), Outcome::Success);
    assert_eq!(l.release_with("c1", pw.clone(), funded(50000), SweepReply::Accepted), Outcome::AlreadyReleased);
}

#[test]
fn below_threshold_is_refused() {
    let mut l = ledger_with("c1", "pw");
    let o = l.release_with("c1", "pw".to_string(), funded(19999), SweepReply::Accepted);
    assert_eq!(o, Outcome::InsufficientFunds);
    assert!(!is_released(&l, "c1"));
    let (mut run, _) = l.release_begin("c1", "pw".to_string());
    let step = l.release_step(&mut run, ReleaseEvent::BalanceReported(funded(19999)));
    assert!(matches!(step, ReleaseStep::Finished(Outcome::InsufficientFunds)));
    assert_eq!(run.stage(), Stage::Done);
}

#[test]
fn at_threshold_sweep_is_attempted() {
    let mut l = ledger_with("c1", "pw");
    let (mut run, _) = l.release_begin("c1", "pw".to_string());
    let step = l.release_step(&mut run, ReleaseEvent::BalanceReported(funded(20000)));
    assert_eq!(run.stage(), Stage::AwaitingSweep { unlocked: 20000 });
    match step {
        ReleaseStep::Sweep { destination, index } => {
            assert_eq!(destination, "R1");
            assert_eq!(index, 7);
        }
        _ => panic!("expected a sweep"),
    }
    assert!(!is_released(&l, "c1"));
    let o = l.release_with("c1", "pw".to_string(), funded(20000), SweepReply::Accepted);
    assert_eq!(o, Outcome::Success);
}

#[test]
fn threshold_gate() {
    assert_eq!(MIN_UNLOCKED, 20000);
    assert!(!meets_threshold(19999));
    assert!(meets_threshold(20000));
    assert!(!meets_threshold(0));
    assert!(meets_threshold(u64::MAX));
}

#[test]
fn display_balances_default_to_zero() {
    assert_eq!(display_balances(BalanceReply::Unreachable), (0, 0));
    assert_eq!(
        display_balances(BalanceReply::Balances { confirmed: 5, unlocked: 3 }),
        (5, 3)
    );
}

#[test]
fn release_of_unknown_contract() {
    let mut l = ledger_with("c1", "pw");
    let o = l.release_with("nope", "pw".to_string(), funded(50000), SweepReply::Accepted);
    assert_eq!(o, Outcome::NotFound);
    let (run, step) = l.release_begin("nope", "pw".to_string());
    assert!(matches!(step, ReleaseStep::Finished(Outcome::NotFound)));
    assert_eq!(run.stage(), Stage::Done);
}

#[test]
fn lost_race_reports_already_released() {
    let mut l = ledger_with("c1", "pw");
    let (mut first, _) = l.release_begin("c1", "pw".to_string());
    let (mut second, _) = l.release_begin("c1", "pw".to_string());
    let o = l.release_step(&mut first, ReleaseEvent::BalanceReported(funded(50000)));
    assert!(matches!(o, ReleaseStep::Sweep { .. }));
    let o = l.release_step(&mut first, ReleaseEvent::SweepReported(SweepReply::Accepted));
    assert!(matches!(o, ReleaseStep::Finished(Outcome::Success)));
    let o = l.release_step(&mut second, ReleaseEvent::BalanceReported(funded(50000)));
    assert!(matches!(o, ReleaseStep::Finished(Outcome::AlreadyReleased)));
    assert_eq!(second.stage(), Stage::Done);
}

#[test]
fn failing_provisioner_stores_nothing() {
    let mut l = Ledger::new();
    let r = l.create_contract("pay".to_string(), "R1".to_string(), None);
    assert_eq!(r, Err(CreateError::Provision));
    assert_eq!(l.len(), 0);
    let r = l.create_with("c1".to_string(), "pw".to_string(), "pay".to_string(), "R1".to_string(), None);
    assert_eq!(r, Err(CreateError::Provision));
    assert_eq!(l.len(), 0);
    assert!(!l.contains("c1"));
}

#[test]
fn duplicate_id_is_refused() {
    let mut l = ledger_with("c1", "pw");
    let r = l.create_with("c1".to_string(), "other".to_string(), "x".to_string(), "R2".to_string(), provisioned("S2", 8));
    assert_eq!(r, Err(CreateError::DuplicateId));
    assert_eq!(l.len(), 1);
    assert_eq!(l.get("c1").unwrap().secret, "pw");
}

#[test]
fn generated_id_and_secret() {
    let mut l = Ledger::new();
    let (id1, s1) = l.create_contract("a".to_string(), "R1".to_string(), provisioned("S1", 1)).unwrap();
    let (id2, s2) = l.create_contract("b".to_string(), "R2".to_string(), provisioned("S2", 2)).unwrap();
    assert_eq!(id1.chars().count(), 36);
    assert!(id1.chars().all(|c| c == '-' || c.is_ascii_digit() || ('a'..='f').contains(&c)));
    assert_eq!(s1.chars().count(), SECRET_LEN);
    assert!(s1.chars().all(|c| c.is_ascii_alphanumeric()));
    assert_ne!(id1, id2);
    assert_ne!(s1, s2);
    assert_eq!(l.len(), 2);
    assert_eq!(l.get(&id1).unwrap().secret, s1);
}

#[test]
fn get_unknown_is_not_found() {
    let l = ledger_with("c1", "pw");
    assert!(matches!(l.get("c2"), Err(StoreError::NotFound)));
}

#[test]
fn store_insert_and_set_released() {
    let mut l = Ledger::new();
    let rec = ContractRecord {
        contract_id: "k".to_string(),
        secret: "s".to_string(),
        recipient_wallet: "R".to_string(),
        contract_wallet: "W".to_string(),
        address_index: 3,
        contract_text: "t".to_string(),
        released: false,
    };
    assert_eq!(l.insert(rec.duplicate()), Ok(()));
    assert_eq!(l.insert(rec), Err(StoreError::DuplicateId));
    assert_eq!(l.set_released("missing"), Err(StoreError::NotFound));
    assert_eq!(l.set_released("k"), Ok(()));
    assert_eq!(l.set_released("k"), Err(StoreError::AlreadyReleased));
    assert!(is_released(&l, "k"));
}

#[test]
fn release_expects_answers_in_order() {
    let l = ledger_with("c1", "pw");
    let (run, _) = l.release_begin("c1", "pw".to_string());
    assert_eq!(run.stage(), Stage::AwaitingBalance);
    assert!(run.expects(ReleaseEvent::BalanceReported(funded(1))));
    assert!(!run.expects(ReleaseEvent::SweepReported(SweepReply::Accepted)));
    let (done, _) = l.release_begin("c1", "bad".to_string());
    assert!(!done.expects(ReleaseEvent::BalanceReported(funded(1))));
    assert!(!done.expects(ReleaseEvent::SweepReported(SweepReply::Accepted)));
}

#[test]
fn prepared_contract_is_not_stored() {
    let l = Ledger::new();
    let rec = l.prepare_contract("t".to_string(), "R1".to_string(), provisioned("S1", 4)).unwrap();
    assert_eq!(rec.contract_id.chars().count(), 36);
    assert_eq!(rec.secret.chars().count(), SECRET_LEN);
    assert_eq!(rec.contract_wallet, "S1");
    assert_eq!(rec.address_index, 4);
    assert!(!rec.released);
    assert_eq!(l.len(), 0);
    assert!(matches!(
        l.prepare_contract("t".to_string(), "R1".to_string(), None),
        Err(CreateError::Provision)
    ));
}

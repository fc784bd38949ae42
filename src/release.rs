use vstd::prelude::*;
use crate::gate::{meets_threshold, BalanceReply, MIN_UNLOCKED};
use crate::ledger::Ledger;
use crate::record::{ContractRecord, RecordModel};

verus! {

/// The result of a release request.
#[derive(PartialEq, Eq, Structural, Clone, Copy, Debug)]
pub enum Outcome {
    Success,
    AlreadyReleased,
    InvalidPassphrase,
    InsufficientFunds,
    TransferFailed,
    TransferError,
    NotFound,
}

/// What the wallet daemon answered to a sweep.
#[derive(PartialEq, Eq, Structural, Clone, Copy, Debug)]
pub enum SweepReply {
    /// No readable answer came back.
    Unreachable,
    /// The daemon answered with an error payload.
    Rejected,
    /// The daemon answered with a result payload.
    Accepted,
}

/// How far a release has got.
#[derive(PartialEq, Eq, Structural, Clone, Copy, Debug)]
pub enum Stage {
    /// The record and the passphrase passed; the balance is awaited.
    AwaitingBalance,
    /// The balance passed the minimum with this unlocked amount; the sweep
    /// is awaited.
    AwaitingSweep { unlocked: u64 },
    /// Nothing more is awaited.
    Done,
}

/// A daemon answer, handed to `Ledger::release_step`.
#[derive(PartialEq, Eq, Structural, Clone, Copy, Debug)]
pub enum ReleaseEvent {
    /// The balance query came back.
    BalanceReported(BalanceReply),
    /// The sweep came back.
    SweepReported(SweepReply),
}

/// What the caller must do next in a release.
pub enum ReleaseStep {
    /// Query the balance of this address index.
    QueryBalance { index: u32 },
    /// Sweep the whole unlocked balance of `index` to `destination`.
    Sweep { destination: String, index: u32 },
    /// The release is over.
    Finished(Outcome),
}

pub ghost enum StepModel {
    QueryBalance(u32),
    Sweep(Seq<char>, u32),
    Finished(Outcome),
}

impl View for ReleaseStep {
    type V = StepModel;

    open spec fn view(&self) -> StepModel {
        match self {
            ReleaseStep::QueryBalance { index } => StepModel::QueryBalance(*index),
            ReleaseStep::Sweep { destination, index } => StepModel::Sweep(destination@, *index),
            ReleaseStep::Finished(o) => StepModel::Finished(*o),
        }
    }
}

/// One release in progress: which contract, the passphrase it was asked
/// with, and how far it has got. Only `Ledger::release_begin` and
/// `Ledger::release_step` make or change one.
pub struct Release {
    contract_id: String,
    secret: String,
    stage: Stage,
}

pub ghost struct ReleaseModel {
    pub contract_id: Seq<char>,
    pub secret: Seq<char>,
    pub stage: Stage,
}

impl View for Release {
    type V = ReleaseModel;

    closed spec fn view(&self) -> ReleaseModel {
        ReleaseModel { contract_id: self.contract_id@, secret: self.secret@, stage: self.stage }
    }
}

/// Whether `event` answers what a release at `stage` waits for.
pub open spec fn expects(stage: Stage, event: ReleaseEvent) -> bool {
    match (stage, event) {
        (Stage::AwaitingBalance, ReleaseEvent::BalanceReported(_)) => true,
        (Stage::AwaitingSweep { .. }, ReleaseEvent::SweepReported(_)) => true,
        _ => false,
    }
}

/// Whether a stage holds an unlocked amount that passed the minimum.
pub open spec fn balance_checked(stage: Stage) -> bool {
    match stage {
        Stage::AwaitingSweep { unlocked } => unlocked >= MIN_UNLOCKED,
        _ => false,
    }
}

/// The refusal, if any, of a release of `id` with `secret` on the store as
/// it is: absent, already released, or a wrong passphrase.
pub open spec fn refusal(m: Map<Seq<char>, RecordModel>, id: Seq<char>, secret: Seq<char>) -> Option<Outcome> {
    if !m.contains_key(id) {
        Some(Outcome::NotFound)
    } else if m[id].released {
        Some(Outcome::AlreadyReleased)
    } else if secret != m[id].secret {
        Some(Outcome::InvalidPassphrase)
    } else {
        None
    }
}

/// First step: load the record, then check the flag and the passphrase.
pub open spec fn begin_spec(m: Map<Seq<char>, RecordModel>, id: Seq<char>, secret: Seq<char>) -> (Stage, StepModel) {
    match refusal(m, id, secret) {
        Some(o) => (Stage::Done, StepModel::Finished(o)),
        None => (Stage::AwaitingBalance, StepModel::QueryBalance(m[id].address_index)),
    }
}

/// One later step: the new store, the new stage and what comes next. Every
/// check is made again on the store as it is, and only an accepted sweep
/// after a balance that passed the minimum commits.
pub open spec fn step_spec(m: Map<Seq<char>, RecordModel>, run: ReleaseModel, event: ReleaseEvent) -> (Map<Seq<char>, RecordModel>, Stage, StepModel) {
    let id = run.contract_id;
    match (run.stage, event) {
        (Stage::AwaitingBalance, ReleaseEvent::BalanceReported(reply)) => match refusal(m, id, run.secret) {
            Some(o) => (m, Stage::Done, StepModel::Finished(o)),
            None => match reply {
                BalanceReply::Unreachable => (m, Stage::Done, StepModel::Finished(Outcome::TransferError)),
                BalanceReply::Balances { confirmed, unlocked } => if unlocked < MIN_UNLOCKED {
                    (m, Stage::Done, StepModel::Finished(Outcome::InsufficientFunds))
                } else {
                    (
                        m,
                        Stage::AwaitingSweep { unlocked },
                        StepModel::Sweep(m[id].recipient_wallet, m[id].address_index),
                    )
                },
            },
        },
        (Stage::AwaitingSweep { unlocked }, ReleaseEvent::SweepReported(reply)) => match reply {
            SweepReply::Unreachable => (m, Stage::Done, StepModel::Finished(Outcome::TransferError)),
            SweepReply::Rejected => (m, Stage::Done, StepModel::Finished(Outcome::TransferFailed)),
            SweepReply::Accepted => match refusal(m, id, run.secret) {
                Some(o) => (m, Stage::Done, StepModel::Finished(o)),
                None => if unlocked < MIN_UNLOCKED {
                    (m, Stage::Done, StepModel::Finished(Outcome::InsufficientFunds))
                } else {
                    (m.insert(id, m[id].mark_released()), Stage::Done, StepModel::Finished(Outcome::Success))
                },
            },
        },
        // an event that the stage does not wait for; `release_step` excludes it
        _ => (m, run.stage, StepModel::Finished(Outcome::TransferError)),
    }
}

/// A whole release run, start to end.
pub ghost struct RunModel {
    pub ledger: Map<Seq<char>, RecordModel>,
    pub outcome: Outcome,
    pub swept: bool,
}

/// A whole release, with the daemon's answers to the balance query and to
/// the sweep where the run gets that far.
pub open spec fn release_run(
    m: Map<Seq<char>, RecordModel>,
    id: Seq<char>,
    secret: Seq<char>,
    balance: BalanceReply,
    sweep: SweepReply,
) -> RunModel {
    let (s1, step1) = begin_spec(m, id, secret);
    match step1 {
        StepModel::Finished(o) => RunModel { ledger: m, outcome: o, swept: false },
        _ => {
            let run1 = ReleaseModel { contract_id: id, secret, stage: s1 };
            let (m2, s2, step2) = step_spec(m, run1, ReleaseEvent::BalanceReported(balance));
            match step2 {
                StepModel::Finished(o) => RunModel { ledger: m2, outcome: o, swept: false },
                _ => {
                    let run2 = ReleaseModel { contract_id: id, secret, stage: s2 };
                    let (m3, s3, step3) = step_spec(m2, run2, ReleaseEvent::SweepReported(sweep));
                    RunModel { ledger: m3, outcome: step3->Finished_0, swept: true }
                },
            }
        },
    }
}

impl Release {
    /// How far the release has got.
    pub fn stage(&self) -> (r: Stage)
        ensures
            r == self@.stage,
    {
        self.stage
    }

    /// Whether `event` answers what the release waits for.
    pub fn expects(&self, event: ReleaseEvent) -> (r: bool)
        ensures
            r == expects(self@.stage, event),
    {
        match (self.stage, event) {
            (Stage::AwaitingBalance, ReleaseEvent::BalanceReported(_)) => true,
            (Stage::AwaitingSweep { .. }, ReleaseEvent::SweepReported(_)) => true,
            _ => false,
        }
    }
}

impl Ledger {
    fn refuse(&self, id: &str, secret: &String) -> (r: Result<ContractRecord, Outcome>)
        ensures
            refusal(self@, id@, secret@) matches Some(o) ==> r == Err::<ContractRecord, Outcome>(o),
            refusal(self@, id@, secret@) is None ==> (r matches Ok(c) && c@ == self@[id@]),
    {
        let record = match self.get(id) {
            Ok(c) => c,
            Err(_) => {
                return Err(Outcome::NotFound);
            },
        };
        if record.released {
            Err(Outcome::AlreadyReleased)
        } else if record.secret != *secret {
            Err(Outcome::InvalidPassphrase)
        } else {
            Ok(record)
        }
    }

    /// Starts a release of contract `id` with passphrase `secret`. The
    /// caller holds the contract exclusively from here to the finished step,
    /// performs each step that is not `Finished`, and hands its answer to
    /// `release_step`.
    pub fn release_begin(&self, id: &str, secret: String) -> (r: (Release, ReleaseStep))
        ensures
            r.0@.contract_id == id@,
            r.0@.secret == secret@,
            (r.0@.stage, r.1@) == begin_spec(self@, id@, secret@),
    {
        match self.refuse(id, &secret) {
            Err(o) => (
                Release { contract_id: id.to_owned(), secret, stage: Stage::Done },
                ReleaseStep::Finished(o),
            ),
            Ok(record) => (
                Release { contract_id: id.to_owned(), secret, stage: Stage::AwaitingBalance },
                ReleaseStep::QueryBalance { index: record.address_index },
            ),
        }
    }

    /// Advances a release by the daemon's answer to its last step.
    pub fn release_step(&mut self, run: &mut Release, event: ReleaseEvent) -> (r: ReleaseStep)
        requires
            old(self).wf(),
            expects(old(run)@.stage, event),
        ensures
            final(self).wf(),
            final(run)@.contract_id == old(run)@.contract_id,
            final(run)@.secret == old(run)@.secret,
            (final(self)@, final(run)@.stage, r@) == step_spec(old(self)@, old(run)@, event),
    {
        let id = run.contract_id.as_str();
        match (run.stage, event) {
            (Stage::AwaitingBalance, ReleaseEvent::BalanceReported(reply)) => {
                let record = match self.refuse(id, &run.secret) {
                    Err(o) => {
                        run.stage = Stage::Done;
                        return ReleaseStep::Finished(o);
                    },
                    Ok(c) => c,
                };
                match reply {
                    BalanceReply::Unreachable => {
                        run.stage = Stage::Done;
                        ReleaseStep::Finished(Outcome::TransferError)
                    },
                    BalanceReply::Balances { confirmed: _, unlocked } => {
                        if meets_threshold(unlocked) {
                            run.stage = Stage::AwaitingSweep { unlocked };
                            ReleaseStep::Sweep {
                                destination: record.recipient_wallet,
                                index: record.address_index,
                            }
                        } else {
                            run.stage = Stage::Done;
                            ReleaseStep::Finished(Outcome::InsufficientFunds)
                        }
                    },
                }
            },
            (Stage::AwaitingSweep { unlocked }, ReleaseEvent::SweepReported(reply)) => {
                run.stage = Stage::Done;
                match reply {
                    SweepReply::Unreachable => ReleaseStep::Finished(Outcome::TransferError),
                    SweepReply::Rejected => ReleaseStep::Finished(Outcome::TransferFailed),
                    SweepReply::Accepted => {
                        if let Err(o) = self.refuse(run.contract_id.as_str(), &run.secret) {
                            return ReleaseStep::Finished(o);
                        }
                        if !meets_threshold(unlocked) {
                            return ReleaseStep::Finished(Outcome::InsufficientFunds);
                        }
                        match self.set_released(run.contract_id.as_str()) {
                            Ok(()) => ReleaseStep::Finished(Outcome::Success),
                            Err(_) => ReleaseStep::Finished(Outcome::AlreadyReleased),
                        }
                    },
                }
            },
            _ => ReleaseStep::Finished(Outcome::TransferError),
        }
    }

    /// A whole release of contract `id`, given what the daemon answers to
    /// the balance query and to the sweep.
    pub fn release_with(&mut self, id: &str, secret: String, balance: BalanceReply, sweep: SweepReply) -> (r: Outcome)
        requires
            old(self).wf(),
        ensures
            final(self).wf(),
            final(self)@ == release_run(old(self)@, id@, secret@, balance, sweep).ledger,
            r == release_run(old(self)@, id@, secret@, balance, sweep).outcome,
    {
        let (mut run, step) = self.release_begin(id, secret);
        if let ReleaseStep::Finished(o) = step {
            return o;
        }
        let step = self.release_step(&mut run, ReleaseEvent::BalanceReported(balance));
        if let ReleaseStep::Finished(o) = step {
            return o;
        }
        match self.release_step(&mut run, ReleaseEvent::SweepReported(sweep)) {
            ReleaseStep::Finished(o) => o,
            _ => Outcome::TransferError,
        }
    }
}

} // verus!

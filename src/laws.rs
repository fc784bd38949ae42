use vstd::prelude::*;
use crate::gate::{BalanceReply, MIN_UNLOCKED};
use crate::record::RecordModel;
use crate::release::{
    balance_checked, expects, release_run, step_spec, Outcome, ReleaseEvent, ReleaseModel, SweepReply,
};

verus! {

/// Several release runs of one contract, one after another, each with its
/// own answers from the daemon.
pub ghost struct RunsModel {
    pub ledger: Map<Seq<char>, RecordModel>,
    pub outcomes: Seq<Outcome>,
    pub swept: Seq<bool>,
}

/// Releases of `id` with `secret`, run in sequence as the store's exclusive
/// holder serialises them.
pub open spec fn release_runs(
    m: Map<Seq<char>, RecordModel>,
    id: Seq<char>,
    secret: Seq<char>,
    replies: Seq<(BalanceReply, SweepReply)>,
) -> RunsModel
    decreases replies.len(),
{
    if replies.len() == 0 {
        RunsModel { ledger: m, outcomes: Seq::empty(), swept: Seq::empty() }
    } else {
        let before = release_runs(m, id, secret, replies.drop_last());
        let run = release_run(before.ledger, id, secret, replies.last().0, replies.last().1);
        RunsModel {
            ledger: run.ledger,
            outcomes: before.outcomes.push(run.outcome),
            swept: before.swept.push(run.swept),
        }
    }
}

/// How many of the outcomes are `Success`.
pub open spec fn count_success(outcomes: Seq<Outcome>) -> nat
    decreases outcomes.len(),
{
    if outcomes.len() == 0 {
        0
    } else {
        count_success(outcomes.drop_last()) + if outcomes.last() == Outcome::Success {
            1nat
        } else {
            0nat
        }
    }
}

/// How many of the runs issued a sweep.
pub open spec fn count_sweeps(swept: Seq<bool>) -> nat
    decreases swept.len(),
{
    if swept.len() == 0 {
        0
    } else {
        count_sweeps(swept.drop_last()) + if swept.last() {
            1nat
        } else {
            0nat
        }
    }
}

/// 1 where the contract is held and released, else 0.
pub open spec fn released_mark(m: Map<Seq<char>, RecordModel>, id: Seq<char>) -> nat {
    if m.contains_key(id) && m[id].released {
        1
    } else {
        0
    }
}

/// A release changes no key and no fixed field of any record, and never
/// clears a `released` flag.
pub proof fn lemma_release_keeps_terms(
    m: Map<Seq<char>, RecordModel>,
    id: Seq<char>,
    secret: Seq<char>,
    balance: BalanceReply,
    sweep: SweepReply,
)
    ensures
        release_run(m, id, secret, balance, sweep).ledger.dom() == m.dom(),
        forall|k: Seq<char>| #[trigger] m.contains_key(k) ==> {
            let after = release_run(m, id, secret, balance, sweep).ledger[k];
            &&& after.same_terms(m[k])
            &&& m[k].released ==> after.released
        },
{
    let run = release_run(m, id, secret, balance, sweep);
    if run.ledger != m {
        assert(run.ledger.dom() =~= m.dom());
    }
}

/// With the right passphrase, enough funds and an accepted sweep, a release
/// succeeds; a second release then finds the contract released and sweeps
/// nothing, whatever the daemon would answer.
pub proof fn lemma_release_twice(
    m: Map<Seq<char>, RecordModel>,
    id: Seq<char>,
    secret: Seq<char>,
    first_balance: BalanceReply,
    first_sweep: SweepReply,
    second_balance: BalanceReply,
    second_sweep: SweepReply,
)
    requires
        m.contains_key(id),
        m[id].secret == secret,
        !m[id].released,
        first_balance matches BalanceReply::Balances { unlocked, .. } && unlocked >= MIN_UNLOCKED,
        first_sweep == SweepReply::Accepted,
    ensures
        ({
            let first = release_run(m, id, secret, first_balance, first_sweep);
            let second = release_run(first.ledger, id, secret, second_balance, second_sweep);
            &&& first.outcome == Outcome::Success
            &&& first.swept
            &&& first.ledger == m.insert(id, m[id].mark_released())
            &&& second.outcome == Outcome::AlreadyReleased
            &&& !second.swept
            &&& second.ledger == first.ledger
        }),
{
}

/// A release with a wrong passphrase stores nothing and sweeps nothing,
/// whatever the balance.
pub proof fn lemma_wrong_passphrase_is_inert(
    m: Map<Seq<char>, RecordModel>,
    id: Seq<char>,
    secret: Seq<char>,
    balance: BalanceReply,
    sweep: SweepReply,
)
    requires
        m.contains_key(id),
        secret != m[id].secret,
    ensures
        ({
            let run = release_run(m, id, secret, balance, sweep);
            &&& run.ledger == m
            &&& !run.swept
            &&& run.outcome == if m[id].released {
                Outcome::AlreadyReleased
            } else {
                Outcome::InvalidPassphrase
            }
        }),
{
}

/// Below the minimum the release is refused and nothing changes; from the
/// minimum on, the sweep is attempted.
pub proof fn lemma_threshold(
    m: Map<Seq<char>, RecordModel>,
    id: Seq<char>,
    secret: Seq<char>,
    confirmed: u64,
    unlocked: u64,
    sweep: SweepReply,
)
    requires
        m.contains_key(id),
        m[id].secret == secret,
        !m[id].released,
    ensures
        ({
            let run = release_run(m, id, secret, BalanceReply::Balances { confirmed, unlocked }, sweep);
            &&& unlocked < MIN_UNLOCKED ==> {
                &&& run.outcome == Outcome::InsufficientFunds
                &&& run.ledger == m
                &&& !run.swept
            }
            &&& unlocked >= MIN_UNLOCKED ==> run.swept
        }),
{
}

proof fn lemma_one_run(
    m: Map<Seq<char>, RecordModel>,
    id: Seq<char>,
    secret: Seq<char>,
    balance: BalanceReply,
    sweep: SweepReply,
)
    ensures
        ({
            let run = release_run(m, id, secret, balance, sweep);
            &&& released_mark(run.ledger, id) == released_mark(m, id) + if run.outcome == Outcome::Success {
                1nat
            } else {
                0nat
            }
            &&& released_mark(m, id) == 1 ==> run.outcome == Outcome::AlreadyReleased && !run.swept
            &&& run.swept && sweep == SweepReply::Accepted ==> run.outcome == Outcome::Success
        }),
{
}

proof fn lemma_runs_inductive(
    m: Map<Seq<char>, RecordModel>,
    id: Seq<char>,
    secret: Seq<char>,
    replies: Seq<(BalanceReply, SweepReply)>,
)
    ensures
        ({
            let r = release_runs(m, id, secret, replies);
            &&& r.outcomes.len() == replies.len()
            &&& r.swept.len() == replies.len()
            &&& released_mark(r.ledger, id) == released_mark(m, id) + count_success(r.outcomes)
            &&& forall|i: int| 0 <= i < replies.len() && r.outcomes[i] == Outcome::Success
                ==> released_mark(r.ledger, id) == 1
            &&& forall|i: int, j: int|
                0 <= i < j < replies.len() && r.outcomes[i] == Outcome::Success
                ==> r.outcomes[j] == Outcome::AlreadyReleased && !r.swept[j]
            &&& (forall|k: int| 0 <= k < replies.len() ==> (#[trigger] replies[k]).1 == SweepReply::Accepted)
                ==> count_sweeps(r.swept) <= count_success(r.outcomes)
        }),
    decreases replies.len(),
{
    if replies.len() > 0 {
        let prefix = replies.drop_last();
        lemma_runs_inductive(m, id, secret, prefix);
        let before = release_runs(m, id, secret, prefix);
        let (b, s) = replies.last();
        lemma_one_run(before.ledger, id, secret, b, s);
        let r = release_runs(m, id, secret, replies);
        let n = replies.len() - 1;
        assert(r.outcomes.drop_last() == before.outcomes);
        assert(r.swept.drop_last() == before.swept);
        assert forall|i: int| 0 <= i < replies.len() && r.outcomes[i] == Outcome::Success
            implies released_mark(r.ledger, id) == 1 by {
            if i < n {
                assert(before.outcomes[i] == r.outcomes[i]);
            }
        }
        assert forall|i: int, j: int|
            0 <= i < j < replies.len() && r.outcomes[i] == Outcome::Success
            implies r.outcomes[j] == Outcome::AlreadyReleased && !r.swept[j] by {
            assert(before.outcomes[i] == r.outcomes[i]);
            if j < n {
                assert(before.outcomes[j] == r.outcomes[j]);
                assert(before.swept[j] == r.swept[j]);
            }
        }
        if forall|k: int| 0 <= k < replies.len() ==> (#[trigger] replies[k]).1 == SweepReply::Accepted {
            assert forall|k: int| 0 <= k < prefix.len() implies (#[trigger] prefix[k]).1 == SweepReply::Accepted by {
                assert(prefix[k] == replies[k]);
            }
            assert(replies[n].1 == SweepReply::Accepted);
        }
    }
}

/// Releases of one contract, run one after another: at most one succeeds;
/// every release after a success finds the contract released and sweeps
/// nothing; and where every sweep is accepted, at most one sweep is issued.
pub proof fn lemma_serialized_releases(
    m: Map<Seq<char>, RecordModel>,
    id: Seq<char>,
    secret: Seq<char>,
    replies: Seq<(BalanceReply, SweepReply)>,
)
    ensures
        ({
            let r = release_runs(m, id, secret, replies);
            &&& r.outcomes.len() == replies.len()
            &&& count_success(r.outcomes) <= 1
            &&& forall|i: int, j: int|
                0 <= i < j < replies.len() && r.outcomes[i] == Outcome::Success
                ==> r.outcomes[j] == Outcome::AlreadyReleased && !r.swept[j]
            &&& (forall|k: int| 0 <= k < replies.len() ==> (#[trigger] replies[k]).1 == SweepReply::Accepted)
                ==> count_sweeps(r.swept) <= 1
        }),
{
    lemma_runs_inductive(m, id, secret, replies);
}

/// A step of a release changes the store only by committing that release:
/// the sweep was accepted, the stage holds a balance that passed the
/// minimum, and the contract is held, unreleased, under the passphrase the
/// release was asked with.
pub proof fn lemma_commit_follows_checks(
    m: Map<Seq<char>, RecordModel>,
    run: ReleaseModel,
    event: ReleaseEvent,
)
    requires
        expects(run.stage, event),
    ensures
        step_spec(m, run, event).0 != m ==> {
            &&& event == ReleaseEvent::SweepReported(SweepReply::Accepted)
            &&& balance_checked(run.stage)
            &&& m.contains_key(run.contract_id)
            &&& !m[run.contract_id].released
            &&& m[run.contract_id].secret == run.secret
            &&& step_spec(m, run, event).0 == m.insert(run.contract_id, m[run.contract_id].mark_released())
            &&& step_spec(m, run, event).2 == crate::release::StepModel::Finished(Outcome::Success)
        },
{
}

/// The store after releases run one after another, each given as the
/// contract id, the passphrase, and the daemon's answers to the balance
/// query and to the sweep.
pub open spec fn ledger_after_releases(
    m: Map<Seq<char>, RecordModel>,
    requests: Seq<(Seq<char>, Seq<char>, BalanceReply, SweepReply)>,
) -> Map<Seq<char>, RecordModel>
    decreases requests.len(),
{
    if requests.len() == 0 {
        m
    } else {
        let (id, secret, balance, sweep) = requests.last();
        release_run(ledger_after_releases(m, requests.drop_last()), id, secret, balance, sweep).ledger
    }
}

/// Any releases of any contracts, in any number, change no key and no fixed
/// field of any record, and never clear a `released` flag.
pub proof fn lemma_releases_keep_terms(
    m: Map<Seq<char>, RecordModel>,
    requests: Seq<(Seq<char>, Seq<char>, BalanceReply, SweepReply)>,
)
    ensures
        ledger_after_releases(m, requests).dom() == m.dom(),
        forall|k: Seq<char>| #[trigger] m.contains_key(k) ==> {
            let after = ledger_after_releases(m, requests)[k];
            &&& after.same_terms(m[k])
            &&& m[k].released ==> after.released
        },
    decreases requests.len(),
{
    if requests.len() > 0 {
        let prefix = requests.drop_last();
        lemma_releases_keep_terms(m, prefix);
        let before = ledger_after_releases(m, prefix);
        let (id, secret, balance, sweep) = requests.last();
        lemma_release_keeps_terms(before, id, secret, balance, sweep);
        assert forall|k: Seq<char>| #[trigger] m.contains_key(k) implies {
            let after = ledger_after_releases(m, requests)[k];
            &&& after.same_terms(m[k])
            &&& m[k].released ==> after.released
        } by {
            assert(before.contains_key(k));
        }
    }
}

} // verus!

use vstd::prelude::*;
use crate::stake::{record_key_of, refusal, stake_outcome, StakeRequest};
use crate::types::{proves_membership, RecordKey, StakeConfig, StakeError, StakeRecord, UserLedger};

verus! {

/// One stake attempt together with the custody service's answers to it.
pub ghost struct StakeAttempt {
    pub request: StakeRequest,
    pub delegated: bool,
    pub frozen: bool,
    pub now: i64,
}

/// The ledger and records after running `attempts` in order, each against
/// the state the previous ones left.
pub open spec fn run_stakes(
    config: StakeConfig,
    ledger: UserLedger,
    records: Map<RecordKey, StakeRecord>,
    attempts: Seq<StakeAttempt>,
) -> (UserLedger, Map<RecordKey, StakeRecord>)
    decreases attempts.len(),
{
    if attempts.len() == 0 {
        (ledger, records)
    } else {
        let a = attempts[0];
        let o = stake_outcome(a.request, config, ledger, records, a.delegated, a.frozen, a.now);
        run_stakes(config, o.0, o.1, attempts.drop_first())
    }
}

/// A stake never takes the ledger past the cap; once the count has reached
/// the cap, a stake that passes membership and address checks is refused
/// with `CapExceeded`; and a refused stake leaves the count unchanged.
pub proof fn lemma_stake_respects_cap(
    req: StakeRequest,
    config: StakeConfig,
    ledger: UserLedger,
    records: Map<RecordKey, StakeRecord>,
    delegated: bool,
    frozen: bool,
    now: i64,
)
    requires
        ledger.within_cap(config),
    ensures
        ({
            let o = stake_outcome(req, config, ledger, records, delegated, frozen, now);
            &&& o.0.within_cap(config)
            &&& o.2 is Err ==> o.0 == ledger
            &&& (proves_membership(req.membership, req.collection_mint)
                && !records.contains_key(record_key_of(config, req.mint))
                && ledger.active_stake_count == config.stake_cap)
                ==> o.2 == Err::<StakeRecord, StakeError>(StakeError::CapExceeded)
        }),
{
}

/// Over any sequence of stake attempts, a ledger that starts within the cap
/// stays within it.
pub proof fn lemma_cap_invariant(
    config: StakeConfig,
    ledger: UserLedger,
    records: Map<RecordKey, StakeRecord>,
    attempts: Seq<StakeAttempt>,
)
    requires
        ledger.within_cap(config),
    ensures
        run_stakes(config, ledger, records, attempts).0.within_cap(config),
    decreases attempts.len(),
{
    if attempts.len() > 0 {
        let a = attempts[0];
        lemma_stake_respects_cap(a.request, config, ledger, records, a.delegated, a.frozen, a.now);
        let o = stake_outcome(a.request, config, ledger, records, a.delegated, a.frozen, a.now);
        lemma_cap_invariant(config, o.0, o.1, attempts.drop_first());
    }
}

/// Staking a token that already has a record under the config fails with
/// `DuplicateStake`, leaving the existing record and the ledger untouched
/// (membership is checked first, so the proof must be verified).
pub proof fn lemma_no_double_stake(
    req: StakeRequest,
    config: StakeConfig,
    ledger: UserLedger,
    records: Map<RecordKey, StakeRecord>,
    delegated: bool,
    frozen: bool,
    now: i64,
)
    requires
        proves_membership(req.membership, req.collection_mint),
        records.contains_key(record_key_of(config, req.mint)),
    ensures
        stake_outcome(req, config, ledger, records, delegated, frozen, now) == (
            ledger,
            records,
            Err::<StakeRecord, StakeError>(StakeError::DuplicateStake),
        ),
{
}

/// A successful stake followed by a second stake of the same token under
/// the same config: the second fails with `DuplicateStake`, and the record
/// made by the first, with its timestamp, stays as it was.
pub proof fn lemma_restake_refused(
    first: StakeRequest,
    second: StakeRequest,
    config: StakeConfig,
    ledger: UserLedger,
    records: Map<RecordKey, StakeRecord>,
    now: i64,
    delegated: bool,
    frozen: bool,
    later: i64,
)
    requires
        second.mint == first.mint,
        proves_membership(second.membership, second.collection_mint),
        stake_outcome(first, config, ledger, records, true, true, now).2 is Ok,
    ensures
        ({
            let o1 = stake_outcome(first, config, ledger, records, true, true, now);
            let o2 = stake_outcome(second, config, o1.0, o1.1, delegated, frozen, later);
            &&& o2 == (o1.0, o1.1, Err::<StakeRecord, StakeError>(StakeError::DuplicateStake))
            &&& o2.1[record_key_of(config, first.mint)].staked_at == now
        }),
{
}

/// If the freeze fails after the delegation succeeded, no record is created
/// and the ledger is unchanged; the stake fails with `FreezeDenied` unless it
/// was refused before any custody call.
pub proof fn lemma_freeze_failure_is_atomic(
    req: StakeRequest,
    config: StakeConfig,
    ledger: UserLedger,
    records: Map<RecordKey, StakeRecord>,
    now: i64,
)
    ensures
        ({
            let o = stake_outcome(req, config, ledger, records, true, false, now);
            &&& o.0 == ledger
            &&& o.1 == records
            &&& o.2 is Err
            &&& refusal(req, config, ledger, records) is None
                ==> o.2 == Err::<StakeRecord, StakeError>(StakeError::FreezeDenied)
        }),
{
}

/// A stake whose membership proof is absent or unverified fails with
/// `MembershipUnverified` whatever the cap, the records and the custody
/// answers, and changes nothing.
pub proof fn lemma_membership_gating(
    req: StakeRequest,
    config: StakeConfig,
    ledger: UserLedger,
    records: Map<RecordKey, StakeRecord>,
    delegated: bool,
    frozen: bool,
    now: i64,
)
    requires
        !proves_membership(req.membership, req.collection_mint),
    ensures
        stake_outcome(req, config, ledger, records, delegated, frozen, now) == (
            ledger,
            records,
            Err::<StakeRecord, StakeError>(StakeError::MembershipUnverified),
        ),
{
}

} // verus!

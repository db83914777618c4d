use vstd::prelude::*;
use crate::registry::StakeRegistry;
use crate::types::{
    is_verified_member, proves_membership, CollectionProof, Identity, RecordKey, StakeConfig,
    StakeError, StakeRecord, UserLedger,
};

verus! {

/// Who stakes which token, claiming membership of which collection.
#[derive(Clone, Copy, Debug, PartialEq, Eq, Structural)]
pub struct StakeRequest {
    pub user: Identity,
    pub mint: Identity,
    pub collection_mint: Identity,
    pub membership: Option<CollectionProof>,
}

/// Where a stake operation stands.
#[derive(Clone, Copy, Debug, PartialEq, Eq, Structural)]
pub enum StakePhase {
    Ready,
    AwaitingDelegation,
    AwaitingFreeze,
    Done,
}

/// A call to make on the custody service.
#[derive(Clone, Copy, Debug, PartialEq, Eq, Structural)]
pub enum CustodyCall {
    /// Grant `delegate` the right to move `amount` units of `token` out of
    /// `owner`'s holding account, authorised by `owner`.
    Delegate { owner: Identity, token: Identity, delegate: RecordKey, amount: u64 },
    /// Freeze `owner`'s holding account of `token`, signed with the
    /// capability of the stake record at `authority`.
    Freeze { owner: Identity, token: Identity, authority: RecordKey },
}

/// What the caller does next: make a custody call, or take the outcome.
#[derive(Clone, Copy, Debug, PartialEq, Eq)]
pub enum StakeStep {
    Call(CustodyCall),
    Finished(Result<StakeRecord, StakeError>),
}

/// The deterministic address of the record for `mint` under `config`.
pub open spec fn record_key_of(config: StakeConfig, mint: Identity) -> RecordKey {
    RecordKey { config: config.key, token: mint }
}

/// Why a stake is refused before any custody call, if it is: membership
/// first, then an occupied record address, then the cap.
pub open spec fn refusal(
    req: StakeRequest,
    config: StakeConfig,
    ledger: UserLedger,
    records: Map<RecordKey, StakeRecord>,
) -> Option<StakeError> {
    if !proves_membership(req.membership, req.collection_mint) {
        Some(StakeError::MembershipUnverified)
    } else if records.contains_key(record_key_of(config, req.mint)) {
        Some(StakeError::DuplicateStake)
    } else if ledger.active_stake_count >= config.stake_cap {
        Some(StakeError::CapExceeded)
    } else {
        None
    }
}

/// The whole stake operation, given the custody service's answers to the
/// delegation and the freeze: the ledger and records after it, and its result.
/// Every failure leaves ledger and records as they were.
pub open spec fn stake_outcome(
    req: StakeRequest,
    config: StakeConfig,
    ledger: UserLedger,
    records: Map<RecordKey, StakeRecord>,
    delegated: bool,
    frozen: bool,
    now: i64,
) -> (UserLedger, Map<RecordKey, StakeRecord>, Result<StakeRecord, StakeError>) {
    match refusal(req, config, ledger, records) {
        Some(e) => (ledger, records, Err(e)),
        None => if !delegated {
            (ledger, records, Err(StakeError::DelegationDenied))
        } else if !frozen {
            (ledger, records, Err(StakeError::FreezeDenied))
        } else {
            let record = StakeRecord { owner: req.user, token: req.mint, staked_at: now };
            (
                UserLedger { active_stake_count: (ledger.active_stake_count + 1) as u64 },
                records.insert(record_key_of(config, req.mint), record),
                Ok(record),
            )
        },
    }
}

pub ghost struct StakeView {
    pub request: StakeRequest,
    pub config: StakeConfig,
    pub ledger: UserLedger,
    pub records: Map<RecordKey, StakeRecord>,
    pub phase: StakePhase,
}

impl StakeView {
    pub open spec fn refusal(self) -> Option<StakeError> {
        refusal(self.request, self.config, self.ledger, self.records)
    }

    pub open spec fn key(self) -> RecordKey {
        record_key_of(self.config, self.request.mint)
    }

    pub open spec fn outcome(self, delegated: bool, frozen: bool, now: i64) -> (
        UserLedger,
        Map<RecordKey, StakeRecord>,
        Result<StakeRecord, StakeError>,
    ) {
        stake_outcome(self.request, self.config, self.ledger, self.records, delegated, frozen, now)
    }

    pub open spec fn with_phase(self, phase: StakePhase) -> StakeView {
        StakeView { phase, ..self }
    }
}

/// One stake operation: the request, the config snapshot, and the user's
/// ledger and the record storage it may update.
///
/// Drive it with [`Stake::stake`], then answer each custody call it names
/// with [`Stake::delegation_answered`] or [`Stake::freeze_answered`]. Ledger
/// and records change only when the last step succeeds.
pub struct Stake {
    request: StakeRequest,
    config: StakeConfig,
    ledger: UserLedger,
    registry: StakeRegistry,
    phase: StakePhase,
}

impl View for Stake {
    type V = StakeView;

    closed spec fn view(&self) -> StakeView {
        StakeView {
            request: self.request,
            config: self.config,
            ledger: self.ledger,
            records: self.registry@,
            phase: self.phase,
        }
    }
}

impl Stake {
    /// The storage is well formed, and once custody calls have begun the
    /// stake was not refused.
    pub closed spec fn wf(&self) -> bool {
        &&& self.registry.wf()
        &&& (self.phase == StakePhase::AwaitingDelegation || self.phase == StakePhase::AwaitingFreeze)
            ==> self@.refusal() is None
    }

    pub fn new(
        request: StakeRequest,
        config: StakeConfig,
        ledger: UserLedger,
        registry: StakeRegistry,
    ) -> (r: Stake)
        requires
            registry.wf(),
        ensures
            r.wf(),
            r@ == (StakeView { request, config, ledger, records: registry@, phase: StakePhase::Ready }),
    {
        Stake { request, config, ledger, registry, phase: StakePhase::Ready }
    }

    /// Starts the operation: checks membership, the record address and the
    /// cap, and on success asks for a delegation of exactly one unit to the
    /// stake record's address. A refused stake makes no custody call.
    pub fn stake(&mut self) -> (r: StakeStep)
        requires
            old(self).wf(),
            old(self)@.phase == StakePhase::Ready,
        ensures
            final(self).wf(),
            match old(self)@.refusal() {
                Some(e) => {
                    &&& r == StakeStep::Finished(Err(e))
                    &&& final(self)@ == old(self)@.with_phase(StakePhase::Done)
                },
                None => {
                    &&& r == StakeStep::Call(
                        CustodyCall::Delegate {
                            owner: old(self)@.request.user,
                            token: old(self)@.request.mint,
                            delegate: old(self)@.key(),
                            amount: 1,
                        },
                    )
                    &&& final(self)@ == old(self)@.with_phase(StakePhase::AwaitingDelegation)
                },
            },
    {
        let key = RecordKey { config: self.config.key, token: self.request.mint };
        let refused = if !is_verified_member(self.request.membership, self.request.collection_mint) {
            Some(StakeError::MembershipUnverified)
        } else if self.registry.contains(key) {
            Some(StakeError::DuplicateStake)
        } else if self.ledger.active_stake_count >= self.config.stake_cap {
            Some(StakeError::CapExceeded)
        } else {
            None
        };
        match refused {
            Some(e) => {
                self.phase = StakePhase::Done;
                StakeStep::Finished(Err(e))
            },
            None => {
                self.phase = StakePhase::AwaitingDelegation;
                StakeStep::Call(
                    CustodyCall::Delegate {
                        owner: self.request.user,
                        token: self.request.mint,
                        delegate: key,
                        amount: 1,
                    },
                )
            },
        }
    }

    /// Takes the custody service's answer to the delegation: on approval asks
    /// to freeze the token with the stake record's capability.
    pub fn delegation_answered(&mut self, approved: bool) -> (r: StakeStep)
        requires
            old(self).wf(),
            old(self)@.phase == StakePhase::AwaitingDelegation,
        ensures
            final(self).wf(),
            old(self)@.refusal() is None,
            approved ==> r == StakeStep::Call(
                CustodyCall::Freeze {
                    owner: old(self)@.request.user,
                    token: old(self)@.request.mint,
                    authority: old(self)@.key(),
                },
            ) && final(self)@ == old(self)@.with_phase(StakePhase::AwaitingFreeze),
            !approved ==> r == StakeStep::Finished(Err(StakeError::DelegationDenied))
                && final(self)@ == old(self)@.with_phase(StakePhase::Done),
    {
        if approved {
            self.phase = StakePhase::AwaitingFreeze;
            StakeStep::Call(
                CustodyCall::Freeze {
                    owner: self.request.user,
                    token: self.request.mint,
                    authority: RecordKey { config: self.config.key, token: self.request.mint },
                },
            )
        } else {
            self.phase = StakePhase::Done;
            StakeStep::Finished(Err(StakeError::DelegationDenied))
        }
    }

    /// Takes the custody service's answer to the freeze. When the token is
    /// frozen, creates the stake record stamped `now` and counts the stake;
    /// otherwise fails with nothing recorded.
    pub fn freeze_answered(&mut self, frozen: bool, now: i64) -> (r: StakeStep)
        requires
            old(self).wf(),
            old(self)@.phase == StakePhase::AwaitingFreeze,
        ensures
            final(self).wf(),
            final(self)@.phase == StakePhase::Done,
            final(self)@.request == old(self)@.request,
            final(self)@.config == old(self)@.config,
            final(self)@.ledger == old(self)@.outcome(true, frozen, now).0,
            final(self)@.records == old(self)@.outcome(true, frozen, now).1,
            r == StakeStep::Finished(old(self)@.outcome(true, frozen, now).2),
    {
        self.phase = StakePhase::Done;
        if frozen {
            let key = RecordKey { config: self.config.key, token: self.request.mint };
            let record = StakeRecord {
                owner: self.request.user,
                token: self.request.mint,
                staked_at: now,
            };
            self.registry.create(key, record);
            self.ledger = UserLedger { active_stake_count: self.ledger.active_stake_count + 1 };
            StakeStep::Finished(Ok(record))
        } else {
            StakeStep::Finished(Err(StakeError::FreezeDenied))
        }
    }

    pub fn phase(&self) -> (r: StakePhase)
        ensures
            r == self@.phase,
    {
        self.phase
    }

    pub fn request(&self) -> (r: StakeRequest)
        ensures
            r == self@.request,
    {
        self.request
    }

    pub fn config(&self) -> (r: StakeConfig)
        ensures
            r == self@.config,
    {
        self.config
    }

    pub fn ledger(&self) -> (r: UserLedger)
        ensures
            r == self@.ledger,
    {
        self.ledger
    }

    /// The address of the record this operation creates.
    pub fn record_key(&self) -> (r: RecordKey)
        ensures
            r == self@.key(),
    {
        RecordKey { config: self.config.key, token: self.request.mint }
    }

    pub fn registry(&self) -> (r: &StakeRegistry)
        requires
            self.wf(),
        ensures
            r.wf(),
            r@ == self@.records,
    {
        &self.registry
    }

    /// Hands back the ledger and the record storage.
    pub fn into_parts(self) -> (r: (UserLedger, StakeRegistry))
        requires
            self.wf(),
        ensures
            r.0 == self@.ledger,
            r.1.wf(),
            r.1@ == self@.records,
    {
        (self.ledger, self.registry)
    }
}

} // verus!

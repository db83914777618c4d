use vstd::prelude::*;

verus! {

/// A 32-byte account or token identity, held as four little-endian words.
#[derive(Clone, Copy, Debug, PartialEq, Eq, Structural)]
pub struct Identity {
    pub w0: u64,
    pub w1: u64,
    pub w2: u64,
    pub w3: u64,
}

/// Global staking policy, read-only while a stake runs.
#[derive(Clone, Copy, Debug, PartialEq, Eq, Structural)]
pub struct StakeConfig {
    /// Identity of the configuration; part of every stake record's key.
    pub key: Identity,
    /// Maximum number of concurrent stakes per user.
    pub stake_cap: u64,
}

/// Per-user aggregate of active stakes.
#[derive(Clone, Copy, Debug, PartialEq, Eq, Structural)]
pub struct UserLedger {
    pub active_stake_count: u64,
}

impl UserLedger {
    /// The ledger sits within the cap of `config`.
    pub open spec fn within_cap(self, config: StakeConfig) -> bool {
        self.active_stake_count <= config.stake_cap
    }
}

/// Collection membership proof attached to a token's metadata.
#[derive(Clone, Copy, Debug, PartialEq, Eq, Structural)]
pub struct CollectionProof {
    pub collection: Identity,
    pub verified: bool,
}

/// The deterministic address of a stake record: one per (config, token).
#[derive(Clone, Copy, Debug, PartialEq, Eq, Structural)]
pub struct RecordKey {
    pub config: Identity,
    pub token: Identity,
}

/// One staked token.
#[derive(Clone, Copy, Debug, PartialEq, Eq, Structural)]
pub struct StakeRecord {
    pub owner: Identity,
    pub token: Identity,
    /// Seconds since the epoch at which the stake was created.
    pub staked_at: i64,
}

#[derive(Clone, Copy, Debug, PartialEq, Eq, Structural)]
pub enum StakeError {
    /// The user already holds as many stakes as the cap allows.
    CapExceeded,
    /// The membership proof is absent, unverified, or names another collection.
    MembershipUnverified,
    /// A stake record already exists for this token under this config.
    DuplicateStake,
    /// The custody service refused to delegate the token.
    DelegationDenied,
    /// The custody service refused to freeze the token.
    FreezeDenied,
}

/// Whether `membership` shows membership of `collection`, verified.
pub open spec fn proves_membership(membership: Option<CollectionProof>, collection: Identity) -> bool {
    match membership {
        Some(p) => p.verified && p.collection == collection,
        None => false,
    }
}

/// Executable check of [`proves_membership`].
pub fn is_verified_member(membership: Option<CollectionProof>, collection: Identity) -> (r: bool)
    ensures
        r == proves_membership(membership, collection),
{
    match membership {
        Some(p) => p.verified && p.collection == collection,
        None => false,
    }
}

} // verus!

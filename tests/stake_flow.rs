use nft_staking::registry::StakeRegistry;
use nft_staking::stake::{CustodyCall, Stake, StakePhase, StakeRequest, StakeStep};
use nft_staking::types::{
    is_verified_member, CollectionProof, Identity, RecordKey, StakeConfig, StakeError, StakeRecord,
    UserLedger,
};

fn id(n: u64) -> Identity {
    Identity { w0: n, w1: 0, w2: 0, w3: 0 }
}

const USER: u64 = 1;
const COLLECTION: u64 = 50;
const CONFIG: u64 = 90;

fn config(cap: u64) -> StakeConfig {
    StakeConfig { key: id(CONFIG), stake_cap: cap }
}

fn request(token: u64, verified: bool) -> StakeRequest {
    StakeRequest {
        user: id(USER),
        mint: id(token),
        collection_mint: id(COLLECTION),
        membership: Some(CollectionProof { collection: id(COLLECTION), verified }),
    }
}

/// Custody service stand-in: answers each call and remembers what it was asked.
struct Custody {
    approve: bool,
    freeze: bool,
    calls: Vec<CustodyCall>,
}

impl Custody {
    fn willing() -> Custody {
        Custody { approve: true, freeze: true, calls: Vec::new() }
    }
}

/// Runs one stake to its end; returns the outcome, the ledger and the storage.
fn run(
    req: StakeRequest,
    cfg: StakeConfig,
    ledger: UserLedger,
    registry: StakeRegistry,
    custody: &mut Custody,
    now: i64,
) -> (Result<StakeRecord, StakeError>, UserLedger, StakeRegistry) {
    let mut op = Stake::new(req, cfg, ledger, registry);
    let mut step = op.stake();
    let outcome = loop {
        match step {
            StakeStep::Finished(r) => break r,
            StakeStep::Call(call) => {
                custody.calls.push(call);
                step = match call {
                    CustodyCall::Delegate { .. } => op.delegation_answered(custody.approve),
                    CustodyCall::Freeze { .. } => op.freeze_answered(custody.freeze, now),
                };
            }
        }
    };
    assert_eq!(op.phase(), StakePhase::Done);
    let (ledger, registry) = op.into_parts();
    (outcome, ledger, registry)
}

fn key(token: u64) -> RecordKey {
    RecordKey { config: id(CONFIG), token: id(token) }
}

#[test]
fn cap_three_then_fourth_refused() {
    let cfg = config(3);
    let mut ledger = UserLedger { active_stake_count: 0 };
    let mut registry = StakeRegistry::new();
    let mut custody = Custody::willing();
    for (i, token) in [10u64, 11, 12].iter().enumerate() {
        let (r, l, g) = run(request(*token, true), cfg, ledger, registry, &mut custody, 1000);
        assert!(r.is_ok());
        assert_eq!(l.active_stake_count, i as u64 + 1);
        ledger = l;
        registry = g;
    }
    let calls_before = custody.calls.len();
    let (r, l, g) = run(request(13, true), cfg, ledger, registry, &mut custody, 1000);
    assert_eq!(r, Err(StakeError::CapExceeded));
    assert_eq!(l.active_stake_count, 3);
    assert!(!g.contains(key(13)));
    assert_eq!(custody.calls.len(), calls_before);
}

#[test]
fn restake_same_token_is_duplicate() {
    let cfg = config(5);
    let mut custody = Custody::willing();
    let (r, ledger, registry) = run(
        request(10, true),
        cfg,
        UserLedger { active_stake_count: 0 },
        StakeRegistry::new(),
        &mut custody,
        1_700_000_000,
    );
    let record = StakeRecord { owner: id(USER), token: id(10), staked_at: 1_700_000_000 };
    assert_eq!(r, Ok(record));
    assert_eq!(registry.get(key(10)), Some(record));
    assert_eq!(ledger.active_stake_count, 1);

    let (r, ledger, registry) =
        run(request(10, true), cfg, ledger, registry, &mut custody, 1_700_000_005);
    assert_eq!(r, Err(StakeError::DuplicateStake));
    assert_eq!(registry.get(key(10)).unwrap().staked_at, 1_700_000_000);
    assert_eq!(ledger.active_stake_count, 1);
}

#[test]
fn unverified_membership_makes_no_custody_call() {
    let mut custody = Custody::willing();
    let (r, ledger, registry) = run(
        request(14, false),
        config(3),
        UserLedger { active_stake_count: 0 },
        StakeRegistry::new(),
        &mut custody,
        1000,
    );
    assert_eq!(r, Err(StakeError::MembershipUnverified));
    assert!(custody.calls.is_empty());
    assert_eq!(ledger.active_stake_count, 0);
    assert!(!registry.contains(key(14)));
}

#[test]
fn unverified_membership_wins_over_cap() {
    let mut custody = Custody::willing();
    let (r, ledger, _) = run(
        request(14, false),
        config(2),
        UserLedger { active_stake_count: 2 },
        StakeRegistry::new(),
        &mut custody,
        1000,
    );
    assert_eq!(r, Err(StakeError::MembershipUnverified));
    assert_eq!(ledger.active_stake_count, 2);
}

#[test]
fn missing_membership_proof_refused() {
    let mut req = request(15, true);
    req.membership = None;
    let mut custody = Custody::willing();
    let (r, _, _) = run(
        req,
        config(3),
        UserLedger { active_stake_count: 0 },
        StakeRegistry::new(),
        &mut custody,
        1000,
    );
    assert_eq!(r, Err(StakeError::MembershipUnverified));
    assert!(custody.calls.is_empty());
}

#[test]
fn proof_of_other_collection_refused() {
    let mut req = request(16, true);
    req.membership = Some(CollectionProof { collection: id(COLLECTION + 1), verified: true });
    assert!(!is_verified_member(req.membership, req.collection_mint));
    let mut custody = Custody::willing();
    let (r, _, _) = run(
        req,
        config(3),
        UserLedger { active_stake_count: 0 },
        StakeRegistry::new(),
        &mut custody,
        1000,
    );
    assert_eq!(r, Err(StakeError::MembershipUnverified));
}

#[test]
fn zero_cap_refuses_everything() {
    let mut custody = Custody::willing();
    let (r, ledger, _) = run(
        request(17, true),
        config(0),
        UserLedger { active_stake_count: 0 },
        StakeRegistry::new(),
        &mut custody,
        1000,
    );
    assert_eq!(r, Err(StakeError::CapExceeded));
    assert_eq!(ledger.active_stake_count, 0);
}

#[test]
fn delegation_denied_changes_nothing() {
    let mut custody = Custody { approve: false, freeze: true, calls: Vec::new() };
    let (r, ledger, registry) = run(
        request(18, true),
        config(3),
        UserLedger { active_stake_count: 1 },
        StakeRegistry::new(),
        &mut custody,
        1000,
    );
    assert_eq!(r, Err(StakeError::DelegationDenied));
    assert_eq!(custody.calls.len(), 1);
    assert_eq!(ledger.active_stake_count, 1);
    assert!(!registry.contains(key(18)));
}

#[test]
fn freeze_denied_after_delegation_changes_nothing() {
    let mut custody = Custody { approve: true, freeze: false, calls: Vec::new() };
    let (r, ledger, registry) = run(
        request(19, true),
        config(3),
        UserLedger { active_stake_count: 1 },
        StakeRegistry::new(),
        &mut custody,
        1000,
    );
    assert_eq!(r, Err(StakeError::FreezeDenied));
    assert_eq!(custody.calls.len(), 2);
    assert_eq!(ledger.active_stake_count, 1);
    assert!(!registry.contains(key(19)));
}

#[test]
fn custody_calls_in_order_with_one_unit() {
    let mut custody = Custody::willing();
    let _ = run(
        request(20, true),
        config(3),
        UserLedger { active_stake_count: 0 },
        StakeRegistry::new(),
        &mut custody,
        1000,
    );
    assert_eq!(
        custody.calls,
        vec![
            CustodyCall::Delegate { owner: id(USER), token: id(20), delegate: key(20), amount: 1 },
            CustodyCall::Freeze { owner: id(USER), token: id(20), authority: key(20) },
        ]
    );
}

#[test]
fn last_admitted_stake_reaches_cap_exactly() {
    let mut custody = Custody::willing();
    let (r, ledger, _) = run(
        request(21, true),
        config(u64::MAX),
        UserLedger { active_stake_count: u64::MAX - 1 },
        StakeRegistry::new(),
        &mut custody,
        1000,
    );
    assert!(r.is_ok());
    assert_eq!(ledger.active_stake_count, u64::MAX);
}

#[test]
fn same_token_under_other_config_is_separate() {
    let mut custody = Custody::willing();
    let (_, ledger, registry) = run(
        request(22, true),
        config(5),
        UserLedger { active_stake_count: 0 },
        StakeRegistry::new(),
        &mut custody,
        1000,
    );
    let other = StakeConfig { key: id(CONFIG + 1), stake_cap: 5 };
    let (r, ledger, registry) = run(request(22, true), other, ledger, registry, &mut custody, 2000);
    assert!(r.is_ok());
    assert_eq!(ledger.active_stake_count, 2);
    assert!(registry.contains(key(22)));
    assert!(registry.contains(RecordKey { config: id(CONFIG + 1), token: id(22) }));
}

#[test]
fn getters_report_request_and_key() {
    let req = request(23, true);
    let op = Stake::new(req, config(3), UserLedger { active_stake_count: 0 }, StakeRegistry::new());
    assert_eq!(op.phase(), StakePhase::Ready);
    assert_eq!(op.request(), req);
    assert_eq!(op.config(), config(3));
    assert_eq!(op.ledger().active_stake_count, 0);
    assert_eq!(op.record_key(), key(23));
    assert!(!op.registry().contains(key(23)));
}

#[test]
fn registry_create_and_lookup() {
    let mut g = StakeRegistry::new();
    assert_eq!(g.get(key(1)), None);
    let rec = StakeRecord { owner: id(USER), token: id(1), staked_at: 7 };
    g.create(key(1), rec);
    assert!(g.contains(key(1)));
    assert_eq!(g.get(key(1)), Some(rec));
    assert!(!g.contains(key(2)));
}

use aura_consensus::authorities::{CompatibilityMode, RuntimeCall};
use aura_consensus::crypto::KeyScheme;
use aura_consensus::digest::{aura_pre_digest, aura_seal, DigestItem};
use aura_consensus::equivocation::Equivocation;
use aura_consensus::error::{ConsensusError, Error};
use aura_consensus::header::Header;
use aura_consensus::import::{BlockOrigin, ForkChoiceStrategy, StateAction};
use aura_consensus::verify::{
    build_verifier, AuraVerifier, BuildVerifierParams, EquivocationPolicy, Outcome, Pending,
};
use sp_core::{sr25519, Pair};

fn params(policy: EquivocationPolicy) -> BuildVerifierParams {
    BuildVerifierParams {
        key_scheme: KeyScheme::Sr25519,
        compatibility_mode: CompatibilityMode::UseInitializeBlock { until: 100 },
        equivocation_policy: policy,
        future_tolerance: 5,
        equivocation_retention: 1000,
    }
}

fn pair(n: u8) -> sr25519::Pair {
    sr25519::Pair::from_seed(&[n; 32])
}

fn authorities() -> Vec<Vec<u8>> {
    vec![pair(0).public().0.to_vec(), pair(1).public().0.to_vec(), pair(2).public().0.to_vec()]
}

fn parent() -> Vec<u8> {
    vec![0x10; 32]
}

fn pre_hash(tag: u8) -> Vec<u8> {
    vec![tag; 32]
}

fn hash(tag: u8) -> Vec<u8> {
    vec![tag ^ 0xff; 32]
}

fn sealed(number: u64, slot: u64, signer: u8, tag: u8) -> Header {
    let signature = pair(signer).sign(&pre_hash(tag)).0.to_vec();
    Header {
        number,
        parent_hash: parent(),
        logs: vec![aura_pre_digest(slot), aura_seal(signature)],
    }
}

fn pending(verifier: &AuraVerifier, number: u64, slot: u64, signer: u8, tag: u8) -> Pending<u8> {
    verifier.begin(sealed(number, slot, signer, tag), hash(tag), Some(tag)).unwrap().0
}

#[test]
fn new_verifier_has_seen_nothing() {
    let verifier = build_verifier(params(EquivocationPolicy::ReportOnly));
    assert_eq!(verifier.params, params(EquivocationPolicy::ReportOnly));
    assert_eq!(verifier.tracker.len(), 0);
    assert_eq!(verifier.tracker.retention(), 1000);
}

#[test]
fn taking_a_block_apart() {
    let verifier = build_verifier(params(EquivocationPolicy::ReportOnly));
    let header = sealed(50, 7, 1, 1);
    let signature = match &header.logs[1] {
        DigestItem::Seal(_, bytes) => bytes.clone(),
        _ => unreachable!(),
    };
    let (pending, call) = verifier.begin(header, hash(1), Some(3u8)).unwrap();
    assert_eq!(
        pending,
        Pending {
            header: Header {
                number: 50,
                parent_hash: parent(),
                logs: vec![aura_pre_digest(7)],
            },
            hash: hash(1),
            slot: 7,
            signature,
            body: Some(3u8),
        }
    );
    assert_eq!(call, RuntimeCall::InitializeBlock { parent_hash: parent(), number: 50 });
    let (_, call) = verifier.begin(sealed(100, 7, 1, 1), hash(1), Some(3u8)).unwrap();
    assert_eq!(call, RuntimeCall::InitializeBlock { parent_hash: parent(), number: 100 });
    let (_, call) = verifier.begin(sealed(101, 7, 1, 1), hash(1), Some(3u8)).unwrap();
    assert_eq!(call, RuntimeCall::Authorities { parent_hash: parent() });
    let (_, call) = verifier.begin(sealed(150, 7, 1, 1), hash(1), Some(3u8)).unwrap();
    assert_eq!(call, RuntimeCall::Authorities { parent_hash: parent() });
}

#[test]
fn malformed_headers_are_turned_down() {
    let verifier = build_verifier(params(EquivocationPolicy::ReportOnly));
    let unsealed = Header { number: 5, parent_hash: parent(), logs: vec![aura_pre_digest(7)] };
    assert_eq!(
        verifier.begin(unsealed, hash(1), Some(0u8)).unwrap_err(),
        Error::HeaderUnsealed(hash(1))
    );
    let short = Header {
        number: 5,
        parent_hash: parent(),
        logs: vec![aura_pre_digest(7), aura_seal(vec![1; 63])],
    };
    assert_eq!(
        verifier.begin(short, hash(1), Some(0u8)).unwrap_err(),
        Error::HeaderBadSeal(hash(1))
    );
    let no_slot = Header { number: 5, parent_hash: parent(), logs: vec![aura_seal(vec![1; 64])] };
    assert_eq!(verifier.begin(no_slot, hash(1), Some(0u8)).unwrap_err(), Error::NoDigestFound);
    let two_slots = Header {
        number: 5,
        parent_hash: parent(),
        logs: vec![aura_pre_digest(7), aura_pre_digest(7), aura_seal(vec![1; 64])],
    };
    assert_eq!(
        verifier.begin(two_slots, hash(1), Some(0u8)).unwrap_err(),
        Error::MultipleHeaders
    );
}

#[test]
fn block_of_the_expected_author_is_accepted() {
    let mut verifier = build_verifier(params(EquivocationPolicy::ReportOnly));
    let block = pending(&verifier, 50, 7, 1, 1);
    let signature = block.signature.clone();
    let verdict = verifier.check(block, Ok(authorities()), &pre_hash(1), 7);
    assert_eq!(verdict.equivocation, None);
    match verdict.outcome {
        Outcome::Accepted(import) => {
            assert_eq!(import.origin, BlockOrigin::Network);
            assert_eq!(
                import.header,
                Header { number: 50, parent_hash: parent(), logs: vec![aura_pre_digest(7)] }
            );
            assert_eq!(import.post_digests, vec![aura_seal(signature)]);
            assert_eq!(import.body, Some(1u8));
            assert_eq!(import.state_action, StateAction::Execute);
            assert_eq!(import.fork_choice, Some(ForkChoiceStrategy::LongestChain));
            assert_eq!(import.post_hash, Some(hash(1)));
        },
        other => panic!("not accepted: {:?}", other),
    }
    assert_eq!(verifier.tracker.len(), 1);
}

#[test]
fn block_of_another_author_is_turned_down() {
    let mut verifier = build_verifier(params(EquivocationPolicy::ReportOnly));
    let block = pending(&verifier, 50, 7, 2, 1);
    let verdict = verifier.check(block, Ok(authorities()), &pre_hash(1), 7);
    assert_eq!(verdict.outcome, Outcome::Rejected(Error::BadSignature(hash(1))));
    assert_eq!(verdict.equivocation, None);
    assert_eq!(verifier.tracker.len(), 0);
}

#[test]
fn signature_on_another_hash_is_turned_down() {
    let mut verifier = build_verifier(params(EquivocationPolicy::ReportOnly));
    let block = pending(&verifier, 50, 7, 1, 1);
    let verdict = verifier.check(block, Ok(authorities()), &pre_hash(2), 7);
    assert_eq!(verdict.outcome, Outcome::Rejected(Error::BadSignature(hash(1))));
    assert_eq!(verifier.tracker.len(), 0);
}

#[test]
fn missing_authorities_turn_the_block_down() {
    let mut verifier = build_verifier(params(EquivocationPolicy::ReportOnly));
    let block = pending(&verifier, 50, 7, 1, 1);
    let verdict =
        verifier.check(block, Err(ConsensusError::InvalidAuthoritiesSet), &pre_hash(1), 7);
    assert_eq!(verdict.outcome, Outcome::Rejected(Error::InvalidAuthoritiesSet));
    let block = pending(&verifier, 50, 7, 1, 1);
    let verdict = verifier.check(block, Ok(vec![]), &pre_hash(1), 7);
    assert_eq!(verdict.outcome, Outcome::Rejected(Error::SlotAuthorNotFound));
    assert_eq!(verifier.tracker.len(), 0);
}

#[test]
fn block_far_ahead_is_turned_down() {
    let mut verifier = build_verifier(params(EquivocationPolicy::ReportOnly));
    let block = pending(&verifier, 50, 13, 1, 1);
    let verdict = verifier.check(block, Ok(authorities()), &pre_hash(1), 7);
    assert_eq!(verdict.outcome, Outcome::Rejected(Error::TooFarInFuture(hash(1))));
    let block = pending(&verifier, 50, 1_000_000, 1, 2);
    let verdict = verifier.check(block, Ok(authorities()), &pre_hash(2), 7);
    assert_eq!(verdict.outcome, Outcome::Rejected(Error::TooFarInFuture(hash(2))));
}

#[test]
fn block_moderately_ahead_is_deferred_and_checked_again() {
    let mut verifier = build_verifier(params(EquivocationPolicy::Enforce));
    for slot in [8u64, 12] {
        let signer = (slot % 3) as u8;
        let tag = slot as u8;
        let block = pending(&verifier, 50, slot, signer, tag);
        let signature = block.signature.clone();
        let verdict = verifier.check(block, Ok(authorities()), &pre_hash(tag), 7);
        assert_eq!(verdict.equivocation, None);
        let again = match verdict.outcome {
            Outcome::Deferred(block) => block,
            other => panic!("not deferred: {:?}", other),
        };
        assert_eq!(
            again,
            Pending {
                header: Header {
                    number: 50,
                    parent_hash: parent(),
                    logs: vec![aura_pre_digest(slot)],
                },
                hash: hash(tag),
                slot,
                signature,
                body: Some(tag),
            }
        );
        let verdict = verifier.check(again, Ok(authorities()), &pre_hash(tag), slot);
        assert_eq!(verdict.equivocation, None);
        assert!(matches!(verdict.outcome, Outcome::Accepted(_)));
    }
}

#[test]
fn second_block_of_an_author_is_reported() {
    let mut verifier = build_verifier(params(EquivocationPolicy::ReportOnly));
    let first = pending(&verifier, 50, 7, 1, 1);
    let verdict = verifier.check(first, Ok(authorities()), &pre_hash(1), 7);
    assert_eq!(verdict.equivocation, None);
    let second = pending(&verifier, 50, 7, 1, 2);
    let verdict = verifier.check(second, Ok(authorities()), &pre_hash(2), 7);
    assert_eq!(
        verdict.equivocation,
        Some(Equivocation {
            author: pair(1).public().0.to_vec(),
            slot: 7,
            first_hash: hash(1),
            second_hash: hash(2),
        })
    );
    assert!(matches!(verdict.outcome, Outcome::Accepted(_)));
    assert_eq!(verifier.tracker.len(), 2);
}

#[test]
fn same_block_twice_is_not_reported() {
    let mut verifier = build_verifier(params(EquivocationPolicy::Enforce));
    for _ in 0..3 {
        let block = pending(&verifier, 50, 7, 1, 1);
        let verdict = verifier.check(block, Ok(authorities()), &pre_hash(1), 7);
        assert_eq!(verdict.equivocation, None);
        assert!(matches!(verdict.outcome, Outcome::Accepted(_)));
    }
    assert_eq!(verifier.tracker.len(), 1);
}

#[test]
fn enforced_equivocation_turns_the_block_down() {
    let mut verifier = build_verifier(params(EquivocationPolicy::Enforce));
    let first = pending(&verifier, 50, 7, 1, 1);
    assert!(matches!(
        verifier.check(first, Ok(authorities()), &pre_hash(1), 7).outcome,
        Outcome::Accepted(_)
    ));
    let second = pending(&verifier, 50, 7, 1, 2);
    let verdict = verifier.check(second, Ok(authorities()), &pre_hash(2), 7);
    assert_eq!(verdict.outcome, Outcome::Rejected(Error::Equivocation(hash(1), hash(2))));
    assert_eq!(
        verdict.equivocation,
        Some(Equivocation {
            author: pair(1).public().0.to_vec(),
            slot: 7,
            first_hash: hash(1),
            second_hash: hash(2),
        })
    );
    assert_eq!(verifier.tracker.len(), 2);
}

#[test]
fn judging_without_the_signature_check() {
    let mut verifier = build_verifier(params(EquivocationPolicy::ReportOnly));
    let block: Pending<u8> = Pending {
        header: Header { number: 9, parent_hash: parent(), logs: vec![aura_pre_digest(3)] },
        hash: hash(9),
        slot: 3,
        signature: vec![0; 64],
        body: None,
    };
    let verdict = verifier.judge(block, &vec![5u8; 32], 3);
    assert!(matches!(verdict.outcome, Outcome::Accepted(_)));
    assert_eq!(verifier.tracker.len(), 1);
}

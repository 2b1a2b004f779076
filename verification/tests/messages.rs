use aura_consensus::bytes::{bytes_copy, bytes_equal, to_hex};
use aura_consensus::{
    build_aura_worker, find_pre_digest, slot_author, BuildAuraWorkerParams, CompatibilityMode,
    Error,
};

#[test]
fn bytes_in_hexadecimal() {
    assert_eq!(to_hex(&vec![]), "0x");
    assert_eq!(to_hex(&vec![0]), "0x00");
    assert_eq!(to_hex(&vec![0x0f, 0xf0, 0xab, 0x19]), "0x0ff0ab19");
    assert_eq!(to_hex(&vec![0x01, 0x23, 0x45, 0x67, 0x89, 0xab, 0xcd, 0xef]), "0x0123456789abcdef");
    assert_eq!(to_hex(&vec![255; 3]), "0xffffff");
}

#[test]
fn bytes_compare_and_copy() {
    assert!(bytes_equal(&vec![1, 2, 3], &vec![1, 2, 3]));
    assert!(!bytes_equal(&vec![1, 2, 3], &vec![1, 2, 4]));
    assert!(!bytes_equal(&vec![1, 2, 3], &vec![1, 2]));
    assert!(bytes_equal(&vec![], &vec![]));
    assert_eq!(bytes_copy(&vec![9, 8, 7]), vec![9, 8, 7]);
}

#[test]
fn errors_as_sentences() {
    let hash = vec![0xab, 0x01];
    assert_eq!(Error::MultipleHeaders.message(), "Multiple Aura pre-runtime headers");
    assert_eq!(Error::NoDigestFound.message(), "No Aura pre-runtime digest found");
    assert_eq!(Error::HeaderUnsealed(hash.clone()).message(), "Header 0xab01 is unsealed");
    assert_eq!(Error::HeaderBadSeal(hash.clone()).message(), "Header 0xab01 has a bad seal");
    assert_eq!(Error::SlotAuthorNotFound.message(), "Slot Author not found");
    assert_eq!(Error::BadSignature(hash.clone()).message(), "Bad signature on 0xab01");
    assert_eq!(
        Error::TooFarInFuture(hash.clone()).message(),
        "Header 0xab01 rejected: too far in the future"
    );
    assert_eq!(
        Error::Equivocation(hash.clone(), vec![0x02]).message(),
        "Slot author is equivocating with headers 0xab01 and 0x02"
    );
    assert_eq!(
        Error::InvalidAuthoritiesSet.message(),
        "Current state of blockchain has invalid authorities set"
    );
    assert_eq!(Error::Client("backend gone".to_string()).message(), "backend gone");
    assert_eq!(
        Error::Inherent("timestamp too far ahead".to_string()).message(),
        "Inherent error: timestamp too far ahead"
    );
}

#[test]
fn unknown_inherent_error_names_the_identifier() {
    assert_eq!(
        Error::UnknownInherentError(*b"auraslot").message(),
        "Unknown inherent error for identifier: auraslot"
    );
    assert_eq!(
        Error::UnknownInherentError(*b"timstap0").message(),
        "Unknown inherent error for identifier: timstap0"
    );
    assert_eq!(
        Error::UnknownInherentError([b'a', b'b', 0xff, b'c', b'd', b'e', b'f', b'g']).message(),
        "Unknown inherent error for identifier: ab\u{fffd}cdefg"
    );
    assert_eq!(
        Error::UnknownInherentError([0xc3, 0xa9, b'1', b'2', b'3', b'4', b'5', b'6']).message(),
        "Unknown inherent error for identifier: \u{e9}123456"
    );
}

#[test]
fn names_at_the_root() {
    let params = BuildAuraWorkerParams {
        force_authoring: true,
        backoff_authoring_blocks: false,
        compatibility_mode: CompatibilityMode::default(),
        key_scheme: aura_consensus::crypto::KeyScheme::Ed25519,
    };
    let worker: aura_consensus::worker::AuraWorker<(), ()> = build_aura_worker(params);
    assert!(worker.force_authoring());
    assert_eq!(slot_author(4, &[10u8, 11, 12]), Some(&11u8));
    let genesis =
        aura_consensus::header::Header { number: 0, parent_hash: vec![], logs: vec![] };
    assert_eq!(find_pre_digest(&genesis), Ok(0));
}

//! The one-shot image integrity check.

use slippi_ext::iso_check::{
    classify_digest, classify_iso_bytes, is_known_desync_hash, IsoIntegrityChecker,
    IsoMd5CheckResult, IsoMd5CheckState,
};

#[test]
fn known_desync_digest_reaches_complete_and_warns_exactly_once() {
    let mut checker = IsoIntegrityChecker::new();
    assert!(matches!(checker.state, IsoMd5CheckState::NotStarted));
    checker.begin();
    assert!(matches!(checker.state, IsoMd5CheckState::InProgress));
    // The digest of an image known to desync.
    let warn = checker.complete_with_digest("23d6baef06bd65989585096915da20f2".to_string());
    assert!(warn);
    match &checker.state {
        IsoMd5CheckState::Complete(IsoMd5CheckResult::KnownDesyncIso { hash }) => {
            assert_eq!(hash, "23d6baef06bd65989585096915da20f2");
        },
        other => panic!("expected a known-desync completion, got {other:?}"),
    }
    // One transition produced exactly one warning; the state can never pass
    // through the in-progress phase again, so no further warning can fire.
    assert_eq!(checker.state.iso_hash(), Some("23d6baef06bd65989585096915da20f2"));
}

#[test]
fn safe_digest_completes_without_warning() {
    let mut checker = IsoIntegrityChecker::new();
    checker.begin();
    let warn = checker.complete_with_digest("0123456789abcdef0123456789abcdef".to_string());
    assert!(!warn);
    assert!(matches!(
        checker.state,
        IsoMd5CheckState::Complete(IsoMd5CheckResult::SafeIso { .. })
    ));
}

#[test]
fn failure_completes_without_hash() {
    let mut checker = IsoIntegrityChecker::new();
    checker.begin();
    checker.complete_failed();
    assert!(matches!(checker.state, IsoMd5CheckState::Complete(IsoMd5CheckResult::Failed)));
    assert_eq!(checker.state.iso_hash(), None);
    assert_eq!(checker.state.iso_hash_owned(), None);
}

#[test]
fn every_listed_digest_is_known_and_comparison_is_exact() {
    for hash in [
        "23d6baef06bd65989585096915da20f2",
        "27a5668769a54cd3515af47b8d9982f3",
        "5805fa9f1407aedc8804d0472346fc5f",
        "9bb3e275e77bb1a160276f2330f93931",
        "8f4d23152be3138b40e7e75a8423da23",
        "80d765b45265c2d09b3b6dc211eb3364",
        "da02952aeb9c3b62c4375a3578b7ff61",
        "2bf0de184f82313c5e8bb2681a17600a",
        "1f01ed5d8dda6e3eb0402fc6e8f8f36a",
        "d19d367683fd9f94453bf4e588d26d7d",
    ] {
        assert!(is_known_desync_hash(hash));
        // Case-sensitive, exact match only.
        assert!(!is_known_desync_hash(&hash.to_uppercase()));
        assert!(!is_known_desync_hash(&hash[1..]));
    }
    assert!(!is_known_desync_hash(""));
}

#[test]
fn classification_carries_the_digest_through() {
    match classify_digest("d19d367683fd9f94453bf4e588d26d7d".to_string()) {
        IsoMd5CheckResult::KnownDesyncIso { hash } => {
            assert_eq!(hash, "d19d367683fd9f94453bf4e588d26d7d");
        },
        other => panic!("expected known-desync, got {other:?}"),
    }
    match classify_digest("ffffffffffffffffffffffffffffffff".to_string()) {
        IsoMd5CheckResult::SafeIso { hash } => {
            assert_eq!(hash, "ffffffffffffffffffffffffffffffff");
        },
        other => panic!("expected safe, got {other:?}"),
    }
}

#[test]
fn digesting_bytes_yields_the_real_md5() {
    // The digest of the empty byte string is fixed by the algorithm, so an
    // identity wrapper could not pass this.
    match classify_iso_bytes(&Vec::new()) {
        IsoMd5CheckResult::SafeIso { hash } => {
            assert_eq!(hash, "d41d8cd98f00b204e9800998ecf8427e");
        },
        other => panic!("expected safe, got {other:?}"),
    }
    match classify_iso_bytes(&b"abc".to_vec()) {
        IsoMd5CheckResult::SafeIso { hash } => {
            assert_eq!(hash, "900150983cd24fb0d6963f7d28e17f72");
        },
        other => panic!("expected safe, got {other:?}"),
    }
}

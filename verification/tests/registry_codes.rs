use std::collections::HashSet;

use rendezvous::code::gen_code;
use rendezvous::registry::Registry;

const ALPHABET: &str = "6789BCDFGHJKLMNPQRTWbcdfghjkmnpqrtwz";

#[test]
fn live_codes_are_unique() {
    let mut reg = Registry::new();
    let mut codes = HashSet::new();
    for i in 0..100u64 {
        let (_, code) = reg
            .create("f".to_string(), "m".to_string(), i, i)
            .expect("create must succeed");
        assert!(codes.insert(code), "two live sessions share a code");
    }
}

#[test]
fn generated_codes_are_well_shaped() {
    for _ in 0..50 {
        let code = gen_code().expect("the random source must work here");
        assert_eq!(code.chars().count(), 6);
        assert!(code.chars().all(|c| ALPHABET.contains(c)));
    }
}

#[test]
fn find_is_exact_and_read_only() {
    let mut reg = Registry::new();
    let (sref, code) = reg
        .create("f".to_string(), "m".to_string(), 1, 1)
        .expect("create must succeed");

    let found = reg.find(&code).expect("the code must resolve");
    assert_eq!(found.idx, sref.idx);
    assert!(reg.find(&"QQQQQQ".to_string()).is_none());

    // Lookup does not claim: the session still has no receiver.
    assert_eq!(reg.receiver_of(sref), Some(None));
}

#[test]
fn remove_by_code_is_idempotent() {
    let mut reg = Registry::new();
    let (sref, code) = reg
        .create("f".to_string(), "m".to_string(), 1, 1)
        .expect("create must succeed");

    assert!(reg.is_live(sref));
    reg.remove(&code);
    assert!(!reg.is_live(sref));
    assert!(reg.find(&code).is_none());
    reg.remove(&code);
    assert!(!reg.is_live(sref));
}

#[test]
fn destroyed_slot_never_resolves_again() {
    let mut reg = Registry::new();
    let (sref, code) = reg
        .create("f".to_string(), "m".to_string(), 7, 3)
        .expect("create must succeed");

    reg.destroy(sref);
    assert!(!reg.is_live(sref));
    assert!(reg.describe(sref).is_none());
    assert!(reg.sender_of(sref).is_none());
    assert!(reg.receiver_of(sref).is_none());
    assert!(reg.find(&code).is_none());

    // A session created afterwards gets a fresh slot, never the old one.
    let (sref2, _) = reg
        .create("g".to_string(), "n".to_string(), 8, 4)
        .expect("create must succeed");
    assert_ne!(sref2.idx, sref.idx);
}

#[test]
fn describe_reports_metadata_and_availability() {
    let mut reg = Registry::new();
    let (sref, _) = reg
        .create("name".to_string(), "mime".to_string(), 42, 9)
        .expect("create must succeed");

    let info = reg.describe(sref).expect("the session is live");
    assert_eq!(info.file_name, "name");
    assert_eq!(info.file_mime, "mime");
    assert_eq!(info.file_size, 42);
    assert!(info.available);
    assert_eq!(reg.sender_of(sref), Some(9));

    reg.claim(sref, 11).expect("the slot is free");
    let info = reg.describe(sref).expect("the session is live");
    assert!(!info.available);
    assert_eq!(reg.receiver_of(sref), Some(Some(11)));
}

#[test]
fn edge_metadata_is_carried_verbatim() {
    let mut reg = Registry::new();

    // Empty strings and the largest possible size are legal metadata and
    // come back untouched.
    let (sref, _) = reg
        .create(String::new(), String::new(), u64::MAX, 0)
        .expect("create must succeed");
    let info = reg.describe(sref).expect("the session is live");
    assert_eq!(info.file_name, "");
    assert_eq!(info.file_mime, "");
    assert_eq!(info.file_size, u64::MAX);

    // An empty code never names a session: codes are six characters.
    assert!(reg.find(&String::new()).is_none());
}

#[test]
fn claim_is_first_winner_only() {
    let mut reg = Registry::new();
    let (sref, _) = reg
        .create("f".to_string(), "m".to_string(), 1, 5)
        .expect("create must succeed");

    assert_eq!(reg.claim(sref, 6), Ok(5));
    assert!(reg.claim(sref, 7).is_err());
    assert_eq!(reg.receiver_of(sref), Some(Some(6)));

    reg.destroy(sref);
    assert!(reg.claim(sref, 8).is_err());
}

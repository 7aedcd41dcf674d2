use daedalus::fetch::{digest_matches, get_hash, verify, AttemptOutcome, Download, MAX_ATTEMPTS};
use daedalus::{Branding, BrandingSlot, MetadataError};

const ABC_SHA1: &str = "a9993e364706816aba3e25717850c26c9cd0d89d";

/// Feeds `body_for(url)` to the download until it ends; returns the result and the URLs requested.
fn drive(
    mut d: Download,
    body_for: impl Fn(&str) -> Vec<u8>,
) -> (Result<Vec<u8>, MetadataError>, Vec<String>) {
    let mut requested = Vec::new();
    loop {
        let url = d.current_url().clone();
        requested.push(url.clone());
        assert!(requested.len() <= 100);
        if let Some(r) = d.step(AttemptOutcome::Received(body_for(&url))) {
            return (r, requested);
        }
    }
}

#[test]
fn hash_of_known_input() {
    assert_eq!(get_hash(b"abc"), ABC_SHA1);
    assert_eq!(get_hash(b""), "da39a3ee5e6b4b0d3255bfef95601890afd80709");
}

#[test]
fn buffer_verifies_against_own_digest() {
    let b = b"some metadata".to_vec();
    let d = get_hash(&b);
    assert!(verify(&b, &d));
    assert!(!verify(b"some metadatb", &d));
    assert!(verify(b"abc", ABC_SHA1));
}

#[test]
fn digest_comparison_is_case_sensitive() {
    assert!(!verify(b"abc", &ABC_SHA1.to_uppercase()));
    assert!(digest_matches(&"ab".to_string(), &"ab".to_string()));
    assert!(!digest_matches(&"ab".to_string(), &"AB".to_string()));
}

#[test]
fn mismatch_on_every_attempt_fails_after_four() {
    let d = Download::new("https://h/x.json", Some(ABC_SHA1));
    let (r, requested) = drive(d, |_| b"not abc".to_vec());
    assert_eq!(MAX_ATTEMPTS, 4);
    assert_eq!(requested.len(), 4);
    match r {
        Err(MetadataError::ChecksumFailure { hash, url, tries }) => {
            assert_eq!(hash, ABC_SHA1);
            assert_eq!(url, "https://h/x.json");
            assert_eq!(tries, 4);
        }
        other => panic!("unexpected {:?}", other),
    }
}

#[test]
fn success_on_second_attempt_makes_two_requests() {
    let mut d = Download::new("u", Some(ABC_SHA1));
    assert!(d.step(AttemptOutcome::Received(b"corrupt".to_vec())).is_none());
    match d.step(AttemptOutcome::Received(b"abc".to_vec())) {
        Some(Ok(b)) => assert_eq!(b, b"abc".to_vec()),
        other => panic!("unexpected {:?}", other),
    }
}

#[test]
fn without_digest_first_body_is_accepted() {
    let d = Download::new("u", None);
    let (r, requested) = drive(d, |_| b"anything".to_vec());
    assert_eq!(requested, vec!["u".to_string()]);
    assert_eq!(r.unwrap(), b"anything".to_vec());
}

#[test]
fn empty_mirror_list_is_a_configuration_error() {
    match Download::from_mirrors("path", &[], None) {
        Err(MetadataError::ParseError(m)) => assert_eq!(m, "No mirrors provided!"),
        other => panic!("unexpected {:?}", other.map(|_| ())),
    }
}

#[test]
fn second_mirror_used_after_first_exhausted() {
    let d = Download::from_mirrors("a/b.json", &["https://m1/", "https://m2/"], Some(ABC_SHA1))
        .unwrap();
    let (r, requested) = drive(d, |url| {
        if url.starts_with("https://m1/") {
            b"bad".to_vec()
        } else {
            b"abc".to_vec()
        }
    });
    assert_eq!(r.unwrap(), b"abc".to_vec());
    let m1 = "https://m1/a/b.json".to_string();
    assert_eq!(requested, vec![m1.clone(), m1.clone(), m1.clone(), m1, "https://m2/a/b.json".to_string()]);
}

#[test]
fn last_mirror_failure_is_reported() {
    let d = Download::from_mirrors("f", &["m1/", "m2/"], Some(ABC_SHA1)).unwrap();
    let (r, requested) = drive(d, |_| b"bad".to_vec());
    assert_eq!(requested.len(), 8);
    match r {
        Err(MetadataError::ChecksumFailure { url, tries, .. }) => {
            assert_eq!(url, "m2/f");
            assert_eq!(tries, 4);
        }
        other => panic!("unexpected {:?}", other),
    }
}

#[test]
fn branding_values() {
    let b = Branding::new("app".to_string(), "me@example.com".to_string());
    assert_eq!(b.header_value, "app/daedalus/0.1.0 <me@example.com>");
    assert_eq!(b.dummy_replace_string, "${app.gameVersion}");
}

#[test]
fn branding_first_set_wins() {
    let mut slot = BrandingSlot::new();
    assert_eq!(slot.header_value(), "unbranded/daedalus/0.1.0 <unbranded>");
    assert!(Branding::set_branding(&mut slot, Branding::new("a".to_string(), "x".to_string())).is_ok());
    let second = Branding::set_branding(&mut slot, Branding::new("b".to_string(), "y".to_string()));
    assert!(matches!(second, Err(MetadataError::BrandingAlreadySet)));
    assert_eq!(slot.header_value(), "a/daedalus/0.1.0 <x>");
}

#[test]
fn default_branding_is_unbranded() {
    let b = Branding::default();
    assert_eq!(b.header_value, "unbranded/daedalus/0.1.0 <unbranded>");
    assert_eq!(b.dummy_replace_string, "${unbranded.gameVersion}");
}

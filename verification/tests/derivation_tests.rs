use seed_phrase::{Error, SeedPhrase};

const VALID_12: &str =
    "abandon abandon abandon abandon abandon abandon abandon abandon abandon abandon abandon about";

fn hex(bytes: &[u8]) -> String {
    let mut out = String::new();
    for b in bytes {
        out.push_str(&format!("{b:02x}"));
    }
    out
}

#[test]
fn to_seed_is_deterministic() {
    let sp = SeedPhrase::from_seed_phrase(VALID_12).unwrap();
    let a = sp.to_seed(Some("pass"));
    let b = sp.to_seed(Some("pass"));
    assert_eq!(a.as_bytes(), b.as_bytes());
    assert_eq!(a.as_bytes().len(), 64);
}

#[test]
fn derivation_is_deterministic() {
    let sp = SeedPhrase::from_seed_phrase(VALID_12).unwrap();
    let a = sp.from_path_string("/0'", Some("pw")).unwrap();
    let b = sp.from_path_string("/0'", Some("pw")).unwrap();
    assert_eq!(a.public().as_bytes(), b.public().as_bytes());
    assert_eq!(a.private().as_bytes(), b.private().as_bytes());
    assert_eq!(a.public().to_encoded(), b.public().to_encoded());
}

#[test]
fn missing_and_empty_passphrase_agree() {
    let sp = SeedPhrase::from_seed_phrase(VALID_12).unwrap();
    assert_eq!(sp.to_seed(None).as_bytes(), sp.to_seed(Some("")).as_bytes());
}

#[test]
fn distinct_passphrases_give_distinct_seeds() {
    let sp = SeedPhrase::from_seed_phrase(VALID_12).unwrap();
    let none = sp.to_seed(None);
    let a = sp.to_seed(Some("first"));
    let b = sp.to_seed(Some("second"));
    assert_ne!(a.as_bytes(), b.as_bytes());
    assert_ne!(none.as_bytes(), a.as_bytes());
    assert_ne!(none.as_bytes(), b.as_bytes());
}

#[test]
fn empty_key_equals_empty_path_string() {
    let sp = SeedPhrase::from_seed_phrase(VALID_12).unwrap();
    let a = sp.empty_key(None).unwrap();
    let b = sp.from_path_string("", None).unwrap();
    assert_eq!(a.public().as_bytes(), b.public().as_bytes());
    assert_eq!(a.private().as_bytes(), b.private().as_bytes());
}

#[test]
fn empty_key_differs_from_index_zero() {
    let sp = SeedPhrase::from_seed_phrase(VALID_12).unwrap();
    let root = sp.empty_key(None).unwrap();
    let zero = sp.from_path_index(0, None).unwrap();
    assert_ne!(root.private().as_bytes(), zero.private().as_bytes());
}

#[test]
fn index_equals_written_out_suffix() {
    let sp = SeedPhrase::from_seed_phrase(VALID_12).unwrap();
    for (n, suffix) in [(0usize, "/0'"), (5, "/5'"), (148, "/148'"), (2147483647, "/2147483647'")] {
        let a = sp.from_path_index(n, Some("pw")).unwrap();
        let b = sp.from_path_string(suffix, Some("pw")).unwrap();
        assert_eq!(a.public().as_bytes(), b.public().as_bytes());
        assert_eq!(a.private().as_bytes(), b.private().as_bytes());
    }
}

#[test]
fn malformed_suffix_rejected_with_full_path() {
    let sp = SeedPhrase::from_seed_phrase(VALID_12).unwrap();
    let e = sp.from_path_string("/abc", None).unwrap_err();
    assert_eq!(e, Error::InvalidIndex { path: String::from("m/44'/148'/abc") });
    let e = sp.from_path_string("/4''", None).unwrap_err();
    assert_eq!(e, Error::InvalidIndex { path: String::from("m/44'/148'/4''") });
    let e = sp.from_path_string("/x1'", None).unwrap_err();
    assert_eq!(e, Error::InvalidIndex { path: String::from("m/44'/148'/x1'") });
}

#[test]
fn non_hardened_suffix_rejected() {
    let sp = SeedPhrase::from_seed_phrase(VALID_12).unwrap();
    let e = sp.from_path_string("/5", None).unwrap_err();
    assert_eq!(e, Error::InvalidIndex { path: String::from("m/44'/148'/5") });
}

#[test]
fn out_of_range_index_rejected() {
    let sp = SeedPhrase::from_seed_phrase(VALID_12).unwrap();
    // 2^31 cannot be a hardened child index
    let e = sp.from_path_index(2147483648, None).unwrap_err();
    assert_eq!(e, Error::InvalidIndex { path: String::from("m/44'/148'/2147483648'") });
}

#[test]
fn zero_entropy_end_to_end_vector() {
    let sp = SeedPhrase::from_entropy(&[0u8; 16]).unwrap();
    assert_eq!(sp.phrase(), VALID_12);
    let seed = sp.to_seed(None);
    assert_eq!(
        hex(seed.as_bytes()),
        "5eb00bbddcf069084889a8ab9155568165f5c453ccb85e70811aaed6f6da5fc19a5ac40b389cd370d086206dec8aa6c43daea6690f20ad3d8d48b2d2ce9e38e4",
    );
    let kp = sp.empty_key(None).unwrap();
    let public = kp.public().to_encoded();
    let private = kp.private().to_encoded();
    assert_eq!(public, "GD6NRME64GHVVKYBQESJGLVIL2DNBJARPJRKQG6YX72KCN5ZVG7CDEY5");
    assert_eq!(private, "SAB566JBWT3YSBAOGYOQPVPE5XNNE56DOY2Q2625LBKABIHPDDZPLCQW");
}

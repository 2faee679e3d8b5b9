use seed_phrase::SeedPhrase;

const VALID_12: &str =
    "abandon abandon abandon abandon abandon abandon abandon abandon abandon abandon abandon about";

#[test]
fn key_material_has_exact_widths() {
    let sp = SeedPhrase::from_seed_phrase(VALID_12).unwrap();
    for suffix in ["", "/0'", "/1'/2'"] {
        let kp = sp.from_path_string(suffix, None).unwrap();
        assert_eq!(kp.public().as_bytes().len(), 32);
        assert_eq!(kp.private().as_bytes().len(), 32);
    }
}

#[test]
fn encoded_keys_have_network_shape() {
    let sp = SeedPhrase::from_seed_phrase(VALID_12).unwrap();
    let kp = sp.from_path_index(0, None).unwrap();
    let public = kp.public().to_encoded();
    let private = kp.private().to_encoded();
    assert_eq!(public.len(), 56);
    assert_eq!(private.len(), 56);
    assert!(public.starts_with('G'));
    assert!(private.starts_with('S'));
}

#[test]
fn encoding_reflects_the_key_bytes() {
    let sp = SeedPhrase::from_seed_phrase(VALID_12).unwrap();
    let a = sp.from_path_index(1, None).unwrap();
    let b = sp.from_path_index(2, None).unwrap();
    // different keys encode differently, and an encoding is not the raw bytes
    assert_ne!(a.public().to_encoded(), b.public().to_encoded());
    assert_ne!(a.private().to_encoded(), b.private().to_encoded());
    assert_ne!(a.public().to_encoded().as_bytes(), a.public().as_bytes().as_slice());
}

#[test]
fn public_key_differs_from_private_scalar() {
    let sp = SeedPhrase::from_seed_phrase(VALID_12).unwrap();
    let kp = sp.empty_key(None).unwrap();
    assert_ne!(kp.public().as_bytes(), kp.private().as_bytes());
}

#[test]
fn seed_differs_from_phrase_and_entropy() {
    let sp = SeedPhrase::from_seed_phrase(VALID_12).unwrap();
    let seed = sp.to_seed(None);
    assert_eq!(seed.as_bytes().len(), 64);
    assert_ne!(seed.as_bytes().as_slice(), sp.phrase().as_bytes());
    assert_ne!(&seed.as_bytes()[0..16], sp.entropy().as_slice());
}

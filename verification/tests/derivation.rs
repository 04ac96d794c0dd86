use vanity_addr::keys::{generate_key_pair, key_pair_from_secret};
use vanity_addr::scalar::is_valid_secret_scalar;

fn secret_from_low_byte(b: u8) -> Vec<u8> {
    let mut s = vec![0u8; 32];
    s[31] = b;
    s
}

#[test]
fn known_secret_one_derives_known_address() {
    let kp = key_pair_from_secret(secret_from_low_byte(1)).unwrap();
    assert_eq!(kp.address(), "7e5f4552091a69125d5dfcb7b8c2659029395bdf");
    assert_eq!(
        kp.private_key_hex(),
        "0000000000000000000000000000000000000000000000000000000000000001"
    );
}

#[test]
fn known_secret_two_derives_known_address() {
    let kp = key_pair_from_secret(secret_from_low_byte(2)).unwrap();
    assert_eq!(kp.address(), "2b5ad5c4795c026514f8317c7a215e218dccd6cf");
}

#[test]
fn invalid_secrets_are_rejected() {
    assert!(key_pair_from_secret(vec![0u8; 32]).is_none());
    assert!(key_pair_from_secret(vec![0xffu8; 32]).is_none());
    assert!(key_pair_from_secret(vec![1u8; 31]).is_none());
}

#[test]
fn generated_pairs_are_well_formed() {
    for _ in 0..10_000 {
        let kp = generate_key_pair().expect("entropy source available");
        let addr = kp.address();
        assert_eq!(addr.len(), 40);
        assert!(addr.chars().all(|c| c.is_ascii_hexdigit() && !c.is_ascii_uppercase()));
        assert!(is_valid_secret_scalar(kp.private_key_bytes()));
    }
}

#[test]
fn private_key_hex_has_64_lowercase_digits() {
    let kp = generate_key_pair().expect("entropy source available");
    let hex = kp.private_key_hex();
    assert_eq!(hex.len(), 64);
    assert!(hex.chars().all(|c| c.is_ascii_hexdigit() && !c.is_ascii_uppercase()));
}

#[test]
fn derived_address_matches_secret_bytes() {
    let kp = generate_key_pair().expect("entropy source available");
    let again = key_pair_from_secret(kp.private_key_bytes().clone()).unwrap();
    assert_eq!(kp.address(), again.address());
}

use vanity_addr::criteria::{matches_criteria, SearchCriteria};
use vanity_addr::scalar::is_valid_secret_scalar;

fn crit(prefix: Option<&str>, suffix: Option<&str>) -> SearchCriteria {
    SearchCriteria {
        prefix: prefix.map(|s| s.to_string()),
        suffix: suffix.map(|s| s.to_string()),
    }
}

const ADDR: &str = "ab1234567890abcdef1234567890abcdef123400";

#[test]
fn prefix_matches_start_of_body() {
    assert!(matches_criteria(ADDR, &crit(Some("ab"), None)));
    assert!(matches_criteria(ADDR, &crit(Some("ab12"), None)));
    assert!(!matches_criteria(ADDR, &crit(Some("cd"), None)));
    assert!(!matches_criteria(ADDR, &crit(Some("b1"), None)));
}

#[test]
fn suffix_matches_end_of_body() {
    assert!(matches_criteria(ADDR, &crit(None, Some("00"))));
    assert!(matches_criteria(ADDR, &crit(None, Some("3400"))));
    assert!(!matches_criteria(ADDR, &crit(None, Some("ab"))));
}

#[test]
fn prefix_and_suffix_combined_as_and() {
    assert!(matches_criteria(ADDR, &crit(Some("ab"), Some("00"))));
    assert!(!matches_criteria(ADDR, &crit(Some("ab"), Some("ff"))));
    assert!(!matches_criteria(ADDR, &crit(Some("ff"), Some("00"))));
    assert!(!matches_criteria(ADDR, &crit(Some("ff"), Some("ff"))));
}

#[test]
fn empty_criteria_match_every_address() {
    assert!(matches_criteria(ADDR, &crit(None, None)));
    assert!(matches_criteria("", &crit(None, None)));
    assert!(matches_criteria("0", &crit(None, None)));
}

#[test]
fn empty_pattern_strings_always_match() {
    assert!(matches_criteria(ADDR, &crit(Some(""), Some(""))));
}

#[test]
fn case_insensitive_prefix() {
    let upper = crit(Some("AB"), None);
    let lower = crit(Some("ab"), None);
    assert_eq!(matches_criteria(ADDR, &upper), matches_criteria(ADDR, &lower));
    assert!(matches_criteria(ADDR, &upper));
    assert!(matches_criteria("AB1234", &crit(Some("ab"), None)));
}

#[test]
fn case_insensitive_suffix() {
    assert!(matches_criteria("1234cafe", &crit(None, Some("CAFE"))));
    assert!(matches_criteria("1234CAFE", &crit(None, Some("cafe"))));
}

#[test]
fn pattern_longer_than_address_rejected() {
    assert!(!matches_criteria("ab", &crit(Some("ab12"), None)));
    assert!(!matches_criteria("ab", &crit(None, Some("ab12"))));
}

#[test]
fn whole_address_as_pattern_matches() {
    assert!(matches_criteria(ADDR, &crit(Some(ADDR), None)));
    assert!(matches_criteria(ADDR, &crit(None, Some(ADDR))));
}

#[test]
fn non_hex_pattern_never_matches_hex_body() {
    assert!(!matches_criteria(ADDR, &crit(Some("zz"), None)));
    assert!(!matches_criteria(ADDR, &crit(None, Some("!?"))));
}

#[test]
fn zero_scalar_is_invalid() {
    assert!(!is_valid_secret_scalar(&vec![0u8; 32]));
}

#[test]
fn one_is_a_valid_scalar() {
    let mut one = vec![0u8; 32];
    one[31] = 1;
    assert!(is_valid_secret_scalar(&one));
}

#[test]
fn group_order_is_invalid() {
    let order: Vec<u8> = vec![
        0xff, 0xff, 0xff, 0xff, 0xff, 0xff, 0xff, 0xff, 0xff, 0xff, 0xff, 0xff, 0xff, 0xff,
        0xff, 0xfe, 0xba, 0xae, 0xdc, 0xe6, 0xaf, 0x48, 0xa0, 0x3b, 0xbf, 0xd2, 0x5e, 0x8c,
        0xd0, 0x36, 0x41, 0x41,
    ];
    assert!(!is_valid_secret_scalar(&order));
}

#[test]
fn just_below_group_order_is_valid() {
    let below: Vec<u8> = vec![
        0xff, 0xff, 0xff, 0xff, 0xff, 0xff, 0xff, 0xff, 0xff, 0xff, 0xff, 0xff, 0xff, 0xff,
        0xff, 0xfe, 0xba, 0xae, 0xdc, 0xe6, 0xaf, 0x48, 0xa0, 0x3b, 0xbf, 0xd2, 0x5e, 0x8c,
        0xd0, 0x36, 0x41, 0x40,
    ];
    assert!(is_valid_secret_scalar(&below));
}

#[test]
fn above_group_order_is_invalid() {
    let mut above = vec![0xffu8; 32];
    above[16] = 0xbb;
    assert!(!is_valid_secret_scalar(&above));
}

#[test]
fn wrong_length_is_invalid() {
    assert!(!is_valid_secret_scalar(&vec![1u8; 31]));
    assert!(!is_valid_secret_scalar(&vec![1u8; 33]));
    assert!(!is_valid_secret_scalar(&Vec::new()));
}

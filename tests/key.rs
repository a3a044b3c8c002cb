use image_store::key::{derive_key, has_disallowed_char, hash, key_from_digest, validate_input, Rejected};

#[test]
fn cafe_name_gives_fourteen_hex_digits() {
    let key = derive_key("caf\u{e9}.png").unwrap();
    assert_eq!(key.len(), 14);
    assert!(key.chars().all(|c| c.is_ascii_hexdigit() && !c.is_ascii_uppercase()));
    assert_eq!(key, "ef08341b779f30");
}

#[test]
fn decomposed_name_normalizes_to_composed_key() {
    assert_eq!(validate_input("cafe\u{301}.png"), Some("caf\u{e9}.png".to_string()));
    assert_eq!(derive_key("cafe\u{301}.png"), derive_key("caf\u{e9}.png"));
}

#[test]
fn tab_in_name_is_rejected() {
    assert_eq!(derive_key("a\tb"), Err(Rejected));
    assert_eq!(validate_input("a\tb"), None);
}

#[test]
fn space_and_control_characters_are_rejected() {
    assert_eq!(derive_key("a b"), Err(Rejected));
    assert_eq!(derive_key("a\u{7f}b"), Err(Rejected));
    assert_eq!(derive_key("a\u{3000}b"), Err(Rejected));
    assert_eq!(derive_key("a\u{85}"), Err(Rejected));
}

#[test]
fn name_of_300_units_is_rejected() {
    assert_eq!(derive_key(&"x".repeat(300)), Err(Rejected));
    assert_eq!(derive_key(&"\u{e9}".repeat(150)), Err(Rejected));
}

#[test]
fn name_at_the_limit_is_accepted() {
    assert_eq!(derive_key(&"x".repeat(256)).unwrap(), "b11b0dfce58ecb");
    assert_eq!(derive_key(&"x".repeat(257)), Err(Rejected));
}

#[test]
fn length_counts_bytes_of_the_input() {
    // 129 two-byte characters: 258 bytes, though only 129 characters.
    assert_eq!(derive_key(&"\u{e9}".repeat(129)), Err(Rejected));
    assert!(derive_key(&"\u{e9}".repeat(128)).is_ok());
}

#[test]
fn empty_name_is_accepted() {
    assert_eq!(validate_input(""), Some(String::new()));
}

#[test]
fn derive_key_is_deterministic() {
    assert_eq!(derive_key("cat.jpg"), derive_key("cat.jpg"));
    assert_eq!(derive_key("cat.jpg").unwrap(), "ca6b6a654e1252");
}

#[test]
fn distinct_names_give_distinct_keys() {
    let names = ["a", "b", "cat.jpg", "dog.jpg", "\u{65e5}\u{672c}.png", "caf\u{e9}.png"];
    let keys: Vec<String> = names.iter().map(|n| derive_key(n).unwrap()).collect();
    for i in 0..keys.len() {
        for j in (i + 1)..keys.len() {
            assert_ne!(keys[i], keys[j]);
        }
    }
    assert_eq!(keys[0], "80084bf2fba024");
    assert_eq!(keys[4], "c37d2b505aa6d2");
}

#[test]
fn hash_renders_truncated_digest() {
    assert_eq!(hash("dog.jpg".to_string()), "3e6e73d3fcedd3");
}

#[test]
fn digest_bytes_render_as_lowercase_hex() {
    let digest = [0xde, 0xad, 0xbe, 0xef, 0x00, 0x01, 0xff, 0x12, 0x34];
    assert_eq!(key_from_digest(&digest), "deadbeef0001ff");
}

#[test]
fn disallowed_characters_are_found() {
    assert!(has_disallowed_char("a\nb"));
    assert!(has_disallowed_char("\u{2028}"));
    assert!(!has_disallowed_char("plain-name.png"));
    assert!(!has_disallowed_char(""));
}

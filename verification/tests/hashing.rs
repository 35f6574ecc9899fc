use hcrelay::hashing::hash_name;

#[test]
fn hash_is_deterministic() {
    let a = hash_name("Blue Mug");
    let b = hash_name("Blue Mug");
    assert_eq!(a, b);
}

#[test]
fn hash_distinct_names_differ() {
    let a = hash_name("Blue Mug");
    let b = hash_name("Red Plate");
    assert_ne!(a, b);
}

#[test]
fn hash_empty_name_is_sentinel() {
    assert_eq!(hash_name(""), "NO TITLE, NO HASH ID");
}

#[test]
fn hash_known_vector() {
    // SHA-256("abc"), lowercase hex: the published test vector.
    assert_eq!(
        hash_name("abc"),
        "ba7816bf8f01cfea414140de5dae2223b00361a396177a9cb410ff61f20015ad"
    );
}

#[test]
fn hash_nonempty_is_64_hex_digits() {
    let h = hash_name("anything at all");
    assert_eq!(h.len(), 64);
    assert!(h.chars().all(|c| c.is_ascii_hexdigit() && !c.is_ascii_uppercase()));
}

#[test]
fn hash_no_trimming() {
    // Trimming is deliberately omitted: surrounding whitespace changes
    // the identity.
    assert_ne!(hash_name("Blue Mug"), hash_name(" Blue Mug "));
}

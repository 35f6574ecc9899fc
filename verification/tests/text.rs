use hcrelay::text::{is_active_status, join_comma_space, split_commas, str_eq, u32_dec};

#[test]
fn str_eq_basic() {
    assert!(str_eq("Active", "Active"));
    assert!(!str_eq("Active", "active"));
    assert!(!str_eq("Active", "Activ"));
    assert!(str_eq("", ""));
}

#[test]
fn is_active_ignores_ascii_case() {
    assert!(is_active_status("active"));
    assert!(is_active_status("Active"));
    assert!(is_active_status("ACTIVE"));
    assert!(!is_active_status("Sold"));
    assert!(!is_active_status(""));
    assert!(!is_active_status("actives"));
}

#[test]
fn u32_dec_values() {
    assert_eq!(u32_dec(0), "0");
    assert_eq!(u32_dec(7), "7");
    assert_eq!(u32_dec(500), "500");
    assert_eq!(u32_dec(4294967295), "4294967295");
}

#[test]
fn split_commas_matches_std_split() {
    let pieces = split_commas("Cups, Kitchen, ");
    assert_eq!(pieces, vec!["Cups", " Kitchen", " "]);
    let std_pieces: Vec<String> = "Cups, Kitchen, ".split(',').map(|s| s.to_string()).collect();
    assert_eq!(pieces, std_pieces);
}

#[test]
fn split_commas_edges() {
    assert_eq!(split_commas(""), vec![""]);
    assert_eq!(split_commas(","), vec!["", ""]);
    assert_eq!(split_commas("a"), vec!["a"]);
    assert_eq!(split_commas("a,b"), vec!["a", "b"]);
}

#[test]
fn join_comma_space_trailing_separator() {
    let items = vec!["Cups".to_string(), "Kitchen".to_string()];
    assert_eq!(join_comma_space(&items), "Cups, Kitchen, ");
    let empty: Vec<String> = Vec::new();
    assert_eq!(join_comma_space(&empty), "");
}

use hcrelay::local::{LocalObject, Sig};
use hcrelay::publish::{outcome_from_status, outcome_from_transport_error};

fn some_item() -> LocalObject {
    LocalObject {
        sig: Sig::VD,
        hash_hex: hcrelay::hashing::hash_name("Red Plate"),
        name: "Red Plate".to_string(),
        regular_price: "8.99".to_string(),
        description: String::new(),
        categories: "Plates".to_string(),
        images: vec![String::new()],
        stock_quantity: None,
        status: "Active".to_string(),
        sku: "RP-1".to_string(),
    }
}

#[test]
fn server_error_yields_failed_outcome_with_detail() {
    // An endpoint answering HTTP 500 yields a failed outcome with a
    // non-empty detail, and nothing is raised past the call boundary.
    let outcome = outcome_from_status(some_item(), 500);
    assert!(!outcome.succeeded);
    let detail = outcome.error_detail.expect("failure must carry a detail");
    assert!(!detail.is_empty());
    assert_eq!(detail, "Failed to create product: 500");
    assert_eq!(outcome.item.name, "Red Plate");
}

#[test]
fn success_statuses_yield_clean_outcome() {
    for status in [200u16, 201, 204, 299] {
        let outcome = outcome_from_status(some_item(), status);
        assert!(outcome.succeeded);
        assert!(outcome.error_detail.is_none());
    }
}

#[test]
fn non_success_statuses_fail() {
    for status in [100u16, 199, 300, 301, 400, 404, 503] {
        let outcome = outcome_from_status(some_item(), status);
        assert!(!outcome.succeeded);
        let detail = outcome.error_detail.expect("failure must carry a detail");
        assert_eq!(detail, format!("Failed to create product: {}", status));
    }
}

#[test]
fn transport_error_keeps_its_message() {
    let outcome = outcome_from_transport_error(some_item(), "connection refused".to_string());
    assert!(!outcome.succeeded);
    assert_eq!(outcome.error_detail.as_deref(), Some("connection refused"));
}

#[test]
fn transport_error_without_message_still_has_detail() {
    let outcome = outcome_from_transport_error(some_item(), String::new());
    assert!(!outcome.succeeded);
    assert_eq!(outcome.error_detail.as_deref(), Some("transport error"));
}

use hcrelay::local::{LocalObject, LocalSession, Sig};
use hcrelay::obj_vd::{ObjVendoo, VendooProduct};
use hcrelay::obj_wc::{Category, Image, ObjWooCommerce, WooCommerceProduct};

fn blank_row() -> VendooProduct {
    VendooProduct {
        images: None,
        title: None,
        description: None,
        brand: None,
        condition: None,
        primary_color: None,
        secondary_color: None,
        tags: None,
        sku: None,
        category: None,
        price: None,
        status: None,
        listed_date: None,
        sold_date: None,
        shipped_date: None,
        listing_platforms: None,
        sold_platform: None,
        internal_notes: None,
        price_sold: None,
        cost_of_goods: None,
        marketplace_fees: None,
        shipping_expenses: None,
        labels: None,
        quantity_left: None,
        quantity_sold: None,
    }
}

fn vendoo_row(title: &str, status: &str) -> VendooProduct {
    let mut row = blank_row();
    row.title = Some(title.to_string());
    row.status = Some(status.to_string());
    row
}

fn wc_product(name: &str) -> WooCommerceProduct {
    WooCommerceProduct {
        name: name.to_string(),
        regular_price: "5.00".to_string(),
        description: String::new(),
        categories: vec![Category { name: "Misc".to_string() }],
        images: vec![Image { src: String::new() }],
        stock_quantity: None,
        status: "publish".to_string(),
        sku: String::new(),
    }
}

fn session_of(storefront: Vec<WooCommerceProduct>, rows: Vec<VendooProduct>) -> LocalSession {
    let wc = ObjWooCommerce {
        db_path: None,
        products: Some(storefront),
        base_api: "http://shop.example".to_string(),
        skey: "sk".to_string(),
        ckey: "ck".to_string(),
    };
    let (vd, parsed, seen) =
        ObjVendoo::from_rows("vendoo.csv".to_string(), rows.into_iter().map(Some).collect());
    assert_eq!(parsed, seen);
    LocalSession::from_session(wc, vd)
}

#[test]
fn scenario_matching_item_is_counted_not_published() {
    // Storefront carries "Blue Mug"; the marketplace has an active row
    // with the same title: one match, nothing to publish.
    let session = session_of(
        vec![wc_product("Blue Mug")],
        vec![vendoo_row("Blue Mug", "Active")],
    );
    let (matched, needs) = session.compare_wc_vd();
    assert_eq!(matched, 1);
    assert!(needs.is_empty());
}

#[test]
fn scenario_missing_item_needs_publishing() {
    // "Red Plate" is active on the marketplace and absent from the
    // storefront: exactly one canonical marketplace item to publish.
    let session = session_of(
        vec![wc_product("Blue Mug")],
        vec![vendoo_row("Red Plate", "Active")],
    );
    let (matched, needs) = session.compare_wc_vd();
    assert_eq!(matched, 0);
    assert_eq!(needs.len(), 1);
    assert_eq!(needs[0].name, "Red Plate");
    assert!(matches!(needs[0].sig, Sig::VD));
}

#[test]
fn scenario_sold_row_is_excluded() {
    // A "Sold" row takes no part in reconciliation at all.
    let session = session_of(
        vec![wc_product("Blue Mug")],
        vec![vendoo_row("Blue Mug", "Sold"), vendoo_row("Red Plate", "Sold")],
    );
    let (matched, needs) = session.compare_wc_vd();
    assert_eq!(matched, 0);
    assert!(needs.is_empty());
}

#[test]
fn matched_plus_needs_equals_active_count() {
    let session = session_of(
        vec![wc_product("Blue Mug"), wc_product("Green Bowl")],
        vec![
            vendoo_row("Blue Mug", "Active"),
            vendoo_row("Red Plate", "Active"),
            vendoo_row("Green Bowl", "Active"),
            vendoo_row("Old Spoon", "Sold"),
            vendoo_row("Odd Fork", "Inactive"),
        ],
    );
    let (matched, needs) = session.compare_wc_vd();
    let active = session
        .local_vp
        .iter()
        .filter(|o| o.status == "Active")
        .count();
    assert_eq!(matched as usize + needs.len(), active);
    assert_eq!(matched, 2);
    assert_eq!(needs.len(), 1);
    assert_eq!(needs[0].name, "Red Plate");
}

#[test]
fn reconcile_twice_gives_identical_output() {
    let session = session_of(
        vec![wc_product("Blue Mug")],
        vec![
            vendoo_row("Red Plate", "Active"),
            vendoo_row("Blue Mug", "Active"),
            vendoo_row("Green Bowl", "Active"),
        ],
    );
    let (m1, n1) = session.compare_wc_vd();
    let (m2, n2) = session.compare_wc_vd();
    assert_eq!(m1, m2);
    assert_eq!(n1.len(), n2.len());
    for (a, b) in n1.iter().zip(n2.iter()) {
        assert_eq!(a.name, b.name);
        assert_eq!(a.hash_hex, b.hash_hex);
        assert_eq!(a.sku, b.sku);
        assert_eq!(a.status, b.status);
    }
}

#[test]
fn needs_publishing_preserves_input_order() {
    let session = session_of(
        Vec::new(),
        vec![
            vendoo_row("C Item", "Active"),
            vendoo_row("A Item", "Active"),
            vendoo_row("B Item", "Active"),
        ],
    );
    let (matched, needs) = session.compare_wc_vd();
    assert_eq!(matched, 0);
    let names: Vec<&str> = needs.iter().map(|o| o.name.as_str()).collect();
    assert_eq!(names, vec!["C Item", "A Item", "B Item"]);
}

#[test]
fn untitled_items_match_only_through_the_literal_sentinel() {
    // An untitled marketplace row carries the sentinel identity. It
    // matches only when the storefront side itself holds the sentinel
    // (here: a storefront product with an empty name) - the accepted
    // edge case.
    let untitled = vendoo_row("", "Active");

    let session_plain = session_of(vec![wc_product("Blue Mug")], vec![untitled.clone()]);
    let (matched, needs) = session_plain.compare_wc_vd();
    assert_eq!(matched, 0);
    assert_eq!(needs.len(), 1);
    assert_eq!(needs[0].hash_hex, "NO TITLE, NO HASH ID");

    let session_sentinel = session_of(vec![wc_product("")], vec![untitled]);
    let (matched2, needs2) = session_sentinel.compare_wc_vd();
    assert_eq!(matched2, 1);
    assert!(needs2.is_empty());
}

#[test]
fn from_local_products_partitions_by_origin() {
    let wc_item = LocalObject::from_woocommerce_object(&wc_product("Blue Mug"));
    let vd_item = LocalObject::from_vendoo_object(&vendoo_row("Red Plate", "Active"));
    let vd_item2 = LocalObject::from_vendoo_object(&vendoo_row("Green Bowl", "Sold"));
    let session = LocalSession::from_local_products(vec![
        vd_item.clone(),
        wc_item.clone(),
        vd_item2.clone(),
    ]);
    assert_eq!(session.n, 3);
    assert_eq!(session.current_idx, 0);
    assert_eq!(session.local_wp.len(), 1);
    assert_eq!(session.local_vp.len(), 2);
    assert_eq!(session.local_wp[0].name, "Blue Mug");
    assert_eq!(session.local_vp[0].name, "Red Plate");
    assert_eq!(session.local_vp[1].name, "Green Bowl");
}

#[test]
fn from_session_counts_both_sides() {
    let session = session_of(
        vec![wc_product("Blue Mug"), wc_product("Green Bowl")],
        vec![vendoo_row("Red Plate", "Active")],
    );
    assert_eq!(session.n, 3);
    assert_eq!(session.local_wp.len(), 2);
    assert_eq!(session.local_vp.len(), 1);
    assert_eq!(session.current_idx, 0);
}

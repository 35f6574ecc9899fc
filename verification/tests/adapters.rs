use hcrelay::local::{LocalObject, Sig};
use hcrelay::obj_vd::VendooProduct;
use hcrelay::obj_wc::{Category, Image, WooCommerceProduct};

fn empty_row() -> VendooProduct {
    VendooProduct {
        images: None,
        title: None,
        description: None,
        brand: None,
        condition: None,
        primary_color: None,
        secondary_color: None,
        tags: None,
        sku: None,
        category: None,
        price: None,
        status: None,
        listed_date: None,
        sold_date: None,
        shipped_date: None,
        listing_platforms: None,
        sold_platform: None,
        internal_notes: None,
        price_sold: None,
        cost_of_goods: None,
        marketplace_fees: None,
        shipping_expenses: None,
        labels: None,
        quantity_left: None,
        quantity_sold: None,
    }
}

fn sample_wc(name: &str, status: &str, stock: Option<u32>) -> WooCommerceProduct {
    WooCommerceProduct {
        name: name.to_string(),
        regular_price: "12.50".to_string(),
        description: "a mug".to_string(),
        categories: vec![
            Category { name: "Cups".to_string() },
            Category { name: "Kitchen".to_string() },
        ],
        images: vec![Image { src: "http://img/one.jpg".to_string() }],
        stock_quantity: stock,
        status: status.to_string(),
        sku: "SKU-1".to_string(),
    }
}

#[test]
fn vendoo_adapter_zero_stock_folds_to_none() {
    let mut row = empty_row();
    row.quantity_left = Some(0);
    let item = LocalObject::from_vendoo_object(&row);
    assert_eq!(item.stock_quantity, None);
}

#[test]
fn vendoo_adapter_positive_stock_kept() {
    let mut row = empty_row();
    row.quantity_left = Some(5);
    let item = LocalObject::from_vendoo_object(&row);
    assert_eq!(item.stock_quantity, Some(5));
}

#[test]
fn wc_adapter_zero_stock_folds_to_none() {
    let prod = sample_wc("Blue Mug", "publish", Some(0));
    let item = LocalObject::from_woocommerce_object(&prod);
    assert_eq!(item.stock_quantity, None);
    let prod5 = sample_wc("Blue Mug", "publish", Some(5));
    assert_eq!(LocalObject::from_woocommerce_object(&prod5).stock_quantity, Some(5));
}

#[test]
fn vendoo_adapter_defaults() {
    let item = LocalObject::from_vendoo_object(&empty_row());
    assert!(matches!(item.sig, Sig::VD));
    assert_eq!(item.name, "");
    assert_eq!(item.regular_price, "0");
    assert_eq!(item.description, "");
    assert_eq!(item.categories, "");
    assert_eq!(item.images, vec![""]);
    assert_eq!(item.status, "");
    assert_eq!(item.sku, "");
    assert_eq!(item.hash_hex, "NO TITLE, NO HASH ID");
}

#[test]
fn vendoo_adapter_maps_fields() {
    let mut row = empty_row();
    row.title = Some("Red Plate".to_string());
    row.description = Some("a plate".to_string());
    row.category = Some("Plates".to_string());
    row.price = Some("8.99".to_string());
    row.sku = Some("RP-1".to_string());
    row.status = Some("Active".to_string());
    row.images = Some("http://img/plate.jpg".to_string());
    let item = LocalObject::from_vendoo_object(&row);
    assert_eq!(item.name, "Red Plate");
    assert_eq!(item.description, "a plate");
    assert_eq!(item.categories, "Plates");
    assert_eq!(item.regular_price, "8.99");
    assert_eq!(item.sku, "RP-1");
    assert_eq!(item.status, "Active");
    assert_eq!(item.images, vec!["http://img/plate.jpg"]);
    assert_eq!(item.hash_hex, hcrelay::hashing::hash_name("Red Plate"));
}

#[test]
fn wc_adapter_joins_categories_with_trailing_separator() {
    let prod = sample_wc("Blue Mug", "publish", None);
    let item = LocalObject::from_woocommerce_object(&prod);
    assert!(matches!(item.sig, Sig::WC));
    assert_eq!(item.categories, "Cups, Kitchen, ");
    assert_eq!(item.images, vec!["http://img/one.jpg"]);
    assert_eq!(item.hash_hex, hcrelay::hashing::hash_name("Blue Mug"));
}

#[test]
fn adapters_agree_on_identity() {
    // The single most important property of the hasher: the same display
    // name yields the same identity through either adapter.
    let mut row = empty_row();
    row.title = Some("Blue Mug".to_string());
    let vd_item = LocalObject::from_vendoo_object(&row);
    let wc_item = LocalObject::from_woocommerce_object(&sample_wc("Blue Mug", "publish", None));
    assert_eq!(vd_item.hash_hex, wc_item.hash_hex);
}

#[test]
fn to_woocommerce_object_splits_categories() {
    let prod = sample_wc("Blue Mug", "publish", Some(3));
    let mut item = LocalObject::from_woocommerce_object(&prod);
    let back = item.to_woocommerce_object();
    let names: Vec<String> = back.categories.iter().map(|c| c.name.clone()).collect();
    assert_eq!(names, vec!["Cups", " Kitchen", " "]);
    let srcs: Vec<String> = back.images.iter().map(|i| i.src.clone()).collect();
    assert_eq!(srcs, vec!["http://img/one.jpg"]);
    assert_eq!(back.name, "Blue Mug");
    assert_eq!(back.regular_price, "12.50");
    assert_eq!(back.stock_quantity, Some(3));
    assert_eq!(back.status, "publish");
    assert_eq!(back.sku, "SKU-1");
}

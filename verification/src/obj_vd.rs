//! The marketplace (Vendoo) side: the native row shape a CSV export
//! carries, with every column individually optional, and the collection
//! value built from the parsed rows. Reading and parsing the file itself
//! is the host application's job; it hands this module one entry per row,
//! `None` where the row failed to parse, and the row counts (seen versus
//! parsed) are reported back.
//!
//! Monetary columns are carried as decimal strings, never as floating
//! point: identity and storage only ever need the source text.
use vstd::prelude::*;
use vstd::string::StringExecFns;

use crate::text::{
    opt_or_default, opt_or_empty, opt_string_or, opt_string_or_empty, spec_dec, u32_dec,
};

verus! {

/// An image URL attached to a marketplace listing.
#[derive(Debug, Clone)]
pub struct ExternalImage {
    pub src: String,
}

impl View for ExternalImage {
    type V = Seq<char>;

    open spec fn view(&self) -> Seq<char> {
        self.src@
    }
}

impl DeepView for ExternalImage {
    type V = Seq<char>;

    open spec fn deep_view(&self) -> Seq<char> {
        self.src@
    }
}

/// The mathematical shape of one marketplace row.
pub struct VendooProductView {
    pub images: Option<Seq<char>>,
    pub title: Option<Seq<char>>,
    pub description: Option<Seq<char>>,
    pub brand: Option<Seq<char>>,
    pub condition: Option<Seq<char>>,
    pub primary_color: Option<Seq<char>>,
    pub secondary_color: Option<Seq<char>>,
    pub tags: Option<Seq<char>>,
    pub sku: Option<Seq<char>>,
    pub category: Option<Seq<char>>,
    pub price: Option<Seq<char>>,
    pub status: Option<Seq<char>>,
    pub listed_date: Option<Seq<char>>,
    pub sold_date: Option<Seq<char>>,
    pub shipped_date: Option<Seq<char>>,
    pub listing_platforms: Option<Seq<char>>,
    pub sold_platform: Option<Seq<char>>,
    pub internal_notes: Option<Seq<char>>,
    pub price_sold: Option<Seq<char>>,
    pub cost_of_goods: Option<Seq<char>>,
    pub marketplace_fees: Option<Seq<char>>,
    pub shipping_expenses: Option<Seq<char>>,
    pub labels: Option<Seq<char>>,
    pub quantity_left: Option<u32>,
    pub quantity_sold: Option<u32>,
}

/// One marketplace listing as the CSV export carries it. Every column is
/// optional; exports differ in which columns they include.
#[derive(Debug, Clone)]
pub struct VendooProduct {
    pub images: Option<String>,
    pub title: Option<String>,
    pub description: Option<String>,
    pub brand: Option<String>,
    pub condition: Option<String>,
    pub primary_color: Option<String>,
    pub secondary_color: Option<String>,
    pub tags: Option<String>,
    pub sku: Option<String>,
    pub category: Option<String>,
    pub price: Option<String>,
    pub status: Option<String>,
    pub listed_date: Option<String>,
    pub sold_date: Option<String>,
    pub shipped_date: Option<String>,
    pub listing_platforms: Option<String>,
    pub sold_platform: Option<String>,
    pub internal_notes: Option<String>,
    pub price_sold: Option<String>,
    pub cost_of_goods: Option<String>,
    pub marketplace_fees: Option<String>,
    pub shipping_expenses: Option<String>,
    pub labels: Option<String>,
    pub quantity_left: Option<u32>,
    pub quantity_sold: Option<u32>,
}

impl View for VendooProduct {
    type V = VendooProductView;

    open spec fn view(&self) -> VendooProductView {
        VendooProductView {
            images: self.images.deep_view(),
            title: self.title.deep_view(),
            description: self.description.deep_view(),
            brand: self.brand.deep_view(),
            condition: self.condition.deep_view(),
            primary_color: self.primary_color.deep_view(),
            secondary_color: self.secondary_color.deep_view(),
            tags: self.tags.deep_view(),
            sku: self.sku.deep_view(),
            category: self.category.deep_view(),
            price: self.price.deep_view(),
            status: self.status.deep_view(),
            listed_date: self.listed_date.deep_view(),
            sold_date: self.sold_date.deep_view(),
            shipped_date: self.shipped_date.deep_view(),
            listing_platforms: self.listing_platforms.deep_view(),
            sold_platform: self.sold_platform.deep_view(),
            internal_notes: self.internal_notes.deep_view(),
            price_sold: self.price_sold.deep_view(),
            cost_of_goods: self.cost_of_goods.deep_view(),
            marketplace_fees: self.marketplace_fees.deep_view(),
            shipping_expenses: self.shipping_expenses.deep_view(),
            labels: self.labels.deep_view(),
            quantity_left: self.quantity_left,
            quantity_sold: self.quantity_sold,
        }
    }
}

impl DeepView for VendooProduct {
    type V = VendooProductView;

    open spec fn deep_view(&self) -> VendooProductView {
        self.view()
    }
}

/// The marketplace collection: where its CSV came from, the listings that
/// parsed, and (optionally) external image records.
#[derive(Debug, Clone)]
pub struct ObjVendoo {
    pub csv_path: Option<String>,
    pub products: Option<Vec<VendooProduct>>,
    pub external_img: Option<Vec<ExternalImage>>,
}

/// The rows that parsed, in input order.
pub open spec fn spec_parsed_rows(rows: Seq<Option<VendooProductView>>) -> Seq<VendooProductView>
    decreases rows.len(),
{
    if rows.len() == 0 {
        Seq::empty()
    } else {
        let rest = spec_parsed_rows(rows.drop_last());
        match rows.last() {
            Some(p) => rest.push(p),
            None => rest,
        }
    }
}

/// How many rows parsed.
pub open spec fn spec_parsed_count(rows: Seq<Option<VendooProductView>>) -> nat
    decreases rows.len(),
{
    if rows.len() == 0 {
        0
    } else {
        spec_parsed_count(rows.drop_last()) + if rows.last() is Some {
            1nat
        } else {
            0nat
        }
    }
}

/// As many products are kept as rows parsed.
pub proof fn lemma_parsed_rows_count(rows: Seq<Option<VendooProductView>>)
    ensures
        spec_parsed_rows(rows).len() == spec_parsed_count(rows),
    decreases rows.len(),
{
    if rows.len() > 0 {
        lemma_parsed_rows_count(rows.drop_last());
    }
}

fn collect_rows(rows: Vec<Option<VendooProduct>>) -> (r: (Vec<VendooProduct>, usize))
    ensures
        r.0.deep_view() == spec_parsed_rows(rows.deep_view()),
        r.1 == spec_parsed_count(rows.deep_view()),
        r.1 <= rows@.len(),
{
    let seen = rows.len();
    let mut products: Vec<VendooProduct> = Vec::new();
    let mut parsed: usize = 0;
    let mut i: usize = 0;
    proof {
        assert(rows.deep_view().take(0) =~= Seq::<Option<VendooProductView>>::empty());
        assert(products.deep_view() =~= spec_parsed_rows(rows.deep_view().take(0)));
    }
    while i < seen
        invariant
            seen == rows@.len(),
            i <= seen,
            parsed <= i,
            products.deep_view() == spec_parsed_rows(rows.deep_view().take(i as int)),
            parsed == spec_parsed_count(rows.deep_view().take(i as int)),
        decreases seen - i,
    {
        let ghost prev = products.deep_view();
        proof {
            assert(rows.deep_view().take(i as int + 1).drop_last() =~= rows.deep_view().take(
                i as int,
            ));
            assert(rows.deep_view().take(i as int + 1).last() == rows.deep_view()[i as int]);
        }
        match &rows[i] {
            Some(p) => {
                let ghost pv = p.deep_view();
                products.push(p.clone_row());
                parsed += 1;
                proof {
                    assert(products.deep_view() =~= prev.push(pv));
                }
            },
            None => {},
        }
        i += 1;
    }
    proof {
        assert(rows.deep_view().take(seen as int) =~= rows.deep_view());
    }
    (products, parsed)
}

/// A copy of an optional text field, with the same characters.
pub fn opt_text_clone(o: &Option<String>) -> (r: Option<String>)
    ensures
        r.deep_view() == o.deep_view(),
        r is Some <==> o is Some,
{
    match o {
        Some(s) => Some(s.clone()),
        None => None,
    }
}

impl VendooProduct {
    /// A field-for-field copy of the row.
    #[verifier::rlimit(40)]
    pub fn clone_row(&self) -> (r: Self)
        ensures
            r@ == self@,
    {
        let r = VendooProduct {
            images: opt_text_clone(&self.images),
            title: opt_text_clone(&self.title),
            description: opt_text_clone(&self.description),
            brand: opt_text_clone(&self.brand),
            condition: opt_text_clone(&self.condition),
            primary_color: opt_text_clone(&self.primary_color),
            secondary_color: opt_text_clone(&self.secondary_color),
            tags: opt_text_clone(&self.tags),
            sku: opt_text_clone(&self.sku),
            category: opt_text_clone(&self.category),
            price: opt_text_clone(&self.price),
            status: opt_text_clone(&self.status),
            listed_date: opt_text_clone(&self.listed_date),
            sold_date: opt_text_clone(&self.sold_date),
            shipped_date: opt_text_clone(&self.shipped_date),
            listing_platforms: opt_text_clone(&self.listing_platforms),
            sold_platform: opt_text_clone(&self.sold_platform),
            internal_notes: opt_text_clone(&self.internal_notes),
            price_sold: opt_text_clone(&self.price_sold),
            cost_of_goods: opt_text_clone(&self.cost_of_goods),
            marketplace_fees: opt_text_clone(&self.marketplace_fees),
            shipping_expenses: opt_text_clone(&self.shipping_expenses),
            labels: opt_text_clone(&self.labels),
            quantity_left: self.quantity_left,
            quantity_sold: self.quantity_sold,
        };
        r
    }
}

/// The quantity a listing displays: the column's value, or zero when
/// the column is absent.
pub open spec fn spec_qty_or_zero(q: Option<u32>) -> nat {
    match q {
        Some(x) => x as nat,
        None => 0,
    }
}

/// The debug rendering of one marketplace row: the fields that matter
/// to the storefront mapping, line per line, absent columns shown as
/// their defaults.
pub open spec fn spec_vd_debug(v: VendooProductView) -> Seq<char> {
    "--- VENDOO PRODUCT ---\nNAME: "@ + opt_or_empty(v.title) + "\nDESC: "@ + opt_or_empty(
        v.description,
    ) + "\nPRICE: "@ + opt_or_default(v.price, "0"@) + "\nCATEGORIES: "@ + opt_or_empty(v.category)
        + "\nIMAGES URL: "@ + opt_or_empty(v.images) + "\nSTOCK_QTTY: "@ + spec_dec(
        spec_qty_or_zero(v.quantity_left),
    ) + "\nSTATUS: "@ + opt_or_empty(v.status) + "\nSERIAL: "@ + opt_or_empty(v.sku) + "\n        "@
}

impl VendooProduct {
    /// A human-readable rendering of the row, restricted to what is
    /// relevant to the storefront mapping.
    pub fn debug(&self) -> (r: String)
        ensures
            r@ == spec_vd_debug(self@),
    {
        let title = opt_string_or_empty(&self.title);
        let description = opt_string_or_empty(&self.description);
        let price = opt_string_or(&self.price, "0");
        let category = opt_string_or_empty(&self.category);
        let images = opt_string_or_empty(&self.images);
        let stock_qty = match self.quantity_left {
            Some(x) => u32_dec(x),
            None => u32_dec(0),
        };
        let status = opt_string_or_empty(&self.status);
        let sku = opt_string_or_empty(&self.sku);
        let mut out = String::new();
        out.append("--- VENDOO PRODUCT ---\nNAME: ");
        out.append(title.as_str());
        out.append("\nDESC: ");
        out.append(description.as_str());
        out.append("\nPRICE: ");
        out.append(price.as_str());
        out.append("\nCATEGORIES: ");
        out.append(category.as_str());
        out.append("\nIMAGES URL: ");
        out.append(images.as_str());
        out.append("\nSTOCK_QTTY: ");
        out.append(stock_qty.as_str());
        out.append("\nSTATUS: ");
        out.append(status.as_str());
        out.append("\nSERIAL: ");
        out.append(sku.as_str());
        out.append("\n        ");
        out
    }
}

impl ObjVendoo {
    /// An empty collection: no path, no rows yet, no external images.
    pub fn empty() -> (r: Self)
        ensures
            r.csv_path is None,
            r.products is Some,
            r.products.unwrap()@.len() == 0,
            r.external_img is None,
    {
        Self { csv_path: None, products: Some(Vec::new()), external_img: None }
    }

    /// Builds the collection from the rows of one CSV read: each entry is
    /// one row, `None` where the row failed to parse. Failed rows are
    /// skipped, never aborting the rest, and the result reports
    /// (rows parsed, rows seen).
    pub fn from_rows(csv_path: String, rows: Vec<Option<VendooProduct>>) -> (r: (
        Self,
        usize,
        usize,
    ))
        ensures
            r.0.csv_path == Some(csv_path),
            r.0.products is Some,
            r.0.products.unwrap().deep_view() == spec_parsed_rows(rows.deep_view()),
            r.0.external_img is None,
            r.1 == spec_parsed_count(rows.deep_view()),
            r.1 == r.0.products.unwrap().deep_view().len(),
            r.2 == rows@.len(),
    {
        let seen = rows.len();
        proof {
            lemma_parsed_rows_count(rows.deep_view());
        }
        let (products, parsed) = collect_rows(rows);
        (Self { csv_path: Some(csv_path), products: Some(products), external_img: None }, parsed, seen)
    }

    /// Re-reads an existing collection from a fresh set of parsed rows,
    /// replacing the path and the products but leaving the external
    /// images as they were. Returns (rows parsed, rows seen).
    pub fn replace_rows(&mut self, csv_path: String, rows: Vec<Option<VendooProduct>>) -> (r: (
        usize,
        usize,
    ))
        ensures
            final(self).csv_path == Some(csv_path),
            final(self).products is Some,
            final(self).products.unwrap().deep_view() == spec_parsed_rows(rows.deep_view()),
            final(self).external_img == old(self).external_img,
            r.0 == spec_parsed_count(rows.deep_view()),
            r.0 == final(self).products.unwrap().deep_view().len(),
            r.1 == rows@.len(),
    {
        let seen = rows.len();
        proof {
            lemma_parsed_rows_count(rows.deep_view());
        }
        let (products, parsed) = collect_rows(rows);
        self.csv_path = Some(csv_path);
        self.products = Some(products);
        (parsed, seen)
    }
}

} // verus!

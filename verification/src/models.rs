//! The storefront product shape used by the one-shot batch-upload path,
//! and the mapping from a parsed marketplace CSV row into it. Only rows
//! whose status equals "active" ignoring case are eligible for that
//! path; the mapping applies the same zero-folding stock policy as the
//! canonical adapters and marks the product for immediate publication.
use vstd::prelude::*;
use vstd::string::StringExecFns;

use crate::local::{fold_zero, spec_fold_zero};
use crate::obj_vd::{VendooProduct, VendooProductView};
use crate::text::{opt_or_default, opt_or_empty, opt_string_or, opt_string_or_empty};

verus! {

/// One category label in a create request.
#[derive(Debug, Clone)]
pub struct Category {
    pub name: String,
}

impl View for Category {
    type V = Seq<char>;

    open spec fn view(&self) -> Seq<char> {
        self.name@
    }
}

impl DeepView for Category {
    type V = Seq<char>;

    open spec fn deep_view(&self) -> Seq<char> {
        self.name@
    }
}

/// One image reference in a create request.
#[derive(Debug, Clone)]
pub struct Image {
    pub src: String,
}

impl View for Image {
    type V = Seq<char>;

    open spec fn view(&self) -> Seq<char> {
        self.src@
    }
}

impl DeepView for Image {
    type V = Seq<char>;

    open spec fn deep_view(&self) -> Seq<char> {
        self.src@
    }
}

/// The mathematical shape of a create request.
pub struct ProductView {
    pub name: Seq<char>,
    pub regular_price: Seq<char>,
    pub description: Seq<char>,
    pub categories: Seq<Seq<char>>,
    pub images: Seq<Seq<char>>,
    pub stock_quantity: Option<u32>,
    pub status: Seq<char>,
    pub sku: Seq<char>,
}

/// A storefront product as the create endpoint expects it.
#[derive(Debug, Clone)]
pub struct Product {
    pub name: String,
    pub regular_price: String,
    pub description: String,
    pub categories: Vec<Category>,
    pub images: Vec<Image>,
    pub stock_quantity: Option<u32>,
    pub status: String,
    pub sku: String,
}

impl View for Product {
    type V = ProductView;

    open spec fn view(&self) -> ProductView {
        ProductView {
            name: self.name@,
            regular_price: self.regular_price@,
            description: self.description@,
            categories: self.categories.deep_view(),
            images: self.images.deep_view(),
            stock_quantity: self.stock_quantity,
            status: self.status@,
            sku: self.sku@,
        }
    }
}

impl DeepView for Product {
    type V = ProductView;

    open spec fn deep_view(&self) -> ProductView {
        self.view()
    }
}

/// How the batch-upload path maps one marketplace row into a create
/// request: defaults for absent columns, exactly one category and one
/// image entry, the zero-folding stock rule (a zero or absent quantity
/// becomes "no value"), and an immediate "publish" status.
pub open spec fn spec_product_from_record(v: VendooProductView) -> ProductView {
    ProductView {
        name: opt_or_empty(v.title),
        regular_price: opt_or_default(v.price, "0"@),
        description: opt_or_empty(v.description),
        categories: seq![opt_or_empty(v.category)],
        images: seq![opt_or_empty(v.images)],
        stock_quantity: spec_fold_zero(v.quantity_left),
        status: "publish"@,
        sku: opt_or_empty(v.sku),
    }
}

/// Builds the create request for one marketplace row. Eligibility (the
/// case-insensitive "active" status test) is decided by the caller via
/// [`crate::text::is_active_status`]; this mapping is total.
pub fn product_from_vendoo_record(rec: &VendooProduct) -> (r: Product)
    ensures
        r@ == spec_product_from_record(rec@),
{
    let name = opt_string_or_empty(&rec.title);
    let price = opt_string_or(&rec.price, "0");
    let description = opt_string_or_empty(&rec.description);
    let category = opt_string_or_empty(&rec.category);
    let ghost cv = category@;
    let image = opt_string_or_empty(&rec.images);
    let ghost iv = image@;
    let sku = opt_string_or_empty(&rec.sku);
    let mut categories: Vec<Category> = Vec::new();
    categories.push(Category { name: category });
    let mut images: Vec<Image> = Vec::new();
    images.push(Image { src: image });
    let mut status = String::new();
    status.append("publish");
    proof {
        assert(categories.deep_view() =~= seq![cv]);
        assert(images.deep_view() =~= seq![iv]);
    }
    Product {
        name,
        regular_price: price,
        description,
        categories,
        images,
        stock_quantity: fold_zero(rec.quantity_left),
        status,
        sku,
    }
}

} // verus!

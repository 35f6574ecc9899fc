//! The storefront (WooCommerce) side: the native product shape the REST
//! API speaks, and the client value that carries the API base URL and the
//! credential pair. Network calls themselves live with the host
//! application; everything here is the data and the computations around
//! it (authorization header, lengths, debug rendering).
use vstd::prelude::*;
use vstd::string::StringExecFns;

use crate::text::{join_comma_space, spec_dec, spec_join_comma_space, u32_dec};

verus! {

/// One category label, as the storefront API nests it.
#[derive(Debug, Clone)]
pub struct Category {
    pub name: String,
}

impl View for Category {
    type V = Seq<char>;

    open spec fn view(&self) -> Seq<char> {
        self.name@
    }
}

impl DeepView for Category {
    type V = Seq<char>;

    open spec fn deep_view(&self) -> Seq<char> {
        self.name@
    }
}

/// One image reference, as the storefront API nests it.
#[derive(Debug, Clone)]
pub struct Image {
    pub src: String,
}

impl View for Image {
    type V = Seq<char>;

    open spec fn view(&self) -> Seq<char> {
        self.src@
    }
}

impl DeepView for Image {
    type V = Seq<char>;

    open spec fn deep_view(&self) -> Seq<char> {
        self.src@
    }
}

/// The mathematical shape of a storefront product: every text field as a
/// character sequence, the nested lists as sequences of labels and URLs.
pub struct WooCommerceProductView {
    pub name: Seq<char>,
    pub regular_price: Seq<char>,
    pub description: Seq<char>,
    pub categories: Seq<Seq<char>>,
    pub images: Seq<Seq<char>>,
    pub stock_quantity: Option<u32>,
    pub status: Seq<char>,
    pub sku: Seq<char>,
}

/// A product in the storefront's native shape.
#[derive(Debug, Clone)]
pub struct WooCommerceProduct {
    pub name: String,
    pub regular_price: String,
    pub description: String,
    pub categories: Vec<Category>,
    pub images: Vec<Image>,
    pub stock_quantity: Option<u32>,
    pub status: String,
    pub sku: String,
}

impl View for WooCommerceProduct {
    type V = WooCommerceProductView;

    open spec fn view(&self) -> WooCommerceProductView {
        WooCommerceProductView {
            name: self.name@,
            regular_price: self.regular_price@,
            description: self.description@,
            categories: self.categories.deep_view(),
            images: self.images.deep_view(),
            stock_quantity: self.stock_quantity,
            status: self.status@,
            sku: self.sku@,
        }
    }
}

impl DeepView for WooCommerceProduct {
    type V = WooCommerceProductView;

    open spec fn deep_view(&self) -> WooCommerceProductView {
        self.view()
    }
}

/// The storefront client value: where to reach the API and with which
/// consumer/secret key pair, plus the product list once fetched.
#[derive(Debug, Clone)]
pub struct ObjWooCommerce {
    pub db_path: Option<String>,
    pub products: Option<Vec<WooCommerceProduct>>,
    pub base_api: String,
    pub skey: String,
    pub ckey: String,
}

/// What `base64::engine::general_purpose::STANDARD.encode` returns for
/// the UTF-8 bytes of a string: the RFC 4648 standard alphabet with
/// padding, a function of the characters alone.
pub uninterp spec fn base64_of(s: Seq<char>) -> Seq<char>;

/// Relies on base64's `STANDARD` engine: encodes the argument's UTF-8
/// bytes with the standard alphabet and padding, deterministically.
#[verifier::external_body]
fn base64_standard(s: &str) -> (r: String)
    ensures
        r@ == base64_of(s@),
{
    base64::Engine::encode(&base64::engine::general_purpose::STANDARD, s.as_bytes())
}

impl ObjWooCommerce {
    /// A fresh client for the given API base and credential pair; no
    /// products fetched yet.
    pub fn new_with_auth(base_api: String, ckey: String, skey: String) -> (r: Self)
        ensures
            r.db_path is None,
            r.products is None,
            r.base_api == base_api,
            r.skey == skey,
            r.ckey == ckey,
    {
        let db_path: Option<String> = None;
        let products: Option<Vec<WooCommerceProduct>> = None;
        Self { db_path, products, base_api, skey, ckey }
    }

    /// The HTTP Basic authorization header for this client: the base64
    /// form of `ckey:skey` behind the `Basic ` marker.
    pub fn build_authorization_header(&self) -> (r: String)
        ensures
            r@ == "Basic "@ + base64_of(self.ckey@ + ":"@ + self.skey@),
    {
        let mut auth = self.ckey.clone();
        auth.append(":");
        auth.append(self.skey.as_str());
        let encoded = base64_standard(auth.as_str());
        let mut out = String::new();
        out.append("Basic ");
        out.append(encoded.as_str());
        out
    }

    /// How many products the fetched list holds. The list must have been
    /// populated first; the count is reported in the storefront's `i32`
    /// convention.
    pub fn get_length(&self) -> (r: i32)
        requires
            self.products is Some,
            self.products.unwrap()@.len() <= i32::MAX,
        ensures
            r == self.products.unwrap()@.len(),
    {
        let length = self.products.as_ref().unwrap().len();
        length as i32
    }
}

/// The list part of a debug rendering: `N/A` when empty, otherwise each
/// entry followed by a comma separator.
pub open spec fn spec_na_or_join(items: Seq<Seq<char>>) -> Seq<char> {
    if items.len() == 0 {
        "N/A"@
    } else {
        spec_join_comma_space(items)
    }
}

/// The stock part of a debug rendering: `N/A` for an absent quantity,
/// otherwise the decimal form.
pub open spec fn spec_na_or_qty(q: Option<u32>) -> Seq<char> {
    match q {
        None => "N/A"@,
        Some(x) => spec_dec(x as nat),
    }
}

/// The full debug rendering of a storefront product.
pub open spec fn spec_wc_debug(w: WooCommerceProductView) -> Seq<char> {
    "--- WOOCOMMERCE PRODUCT ---\nNAME: "@ + w.name + "\nDESC: "@ + w.description + "\nPRICE: "@
        + w.regular_price + "\nCATEGORIES: "@ + spec_na_or_join(w.categories) + "\nIMAGES URL: "@
        + spec_na_or_join(w.images) + "\nSTOCK_QTTY: "@ + spec_na_or_qty(w.stock_quantity)
        + "\nSTATUS: "@ + w.status + "\nSERIAL: "@ + w.sku
}

/// The category labels of a product as a plain list of strings.
pub fn category_names(cats: &Vec<Category>) -> (r: Vec<String>)
    ensures
        r.deep_view() == cats.deep_view(),
{
    let mut out: Vec<String> = Vec::new();
    let mut i: usize = 0;
    while i < cats.len()
        invariant
            i <= cats@.len(),
            out.deep_view() =~= cats.deep_view().take(i as int),
        decreases cats@.len() - i,
    {
        let ghost prev = out.deep_view();
        let label = cats[i].name.clone();
        let ghost lv = label@;
        out.push(label);
        proof {
            assert(out.deep_view() =~= prev.push(lv));
            assert(out.deep_view() =~= cats.deep_view().take(i as int + 1));
        }
        i += 1;
    }
    proof {
        assert(cats.deep_view().take(cats@.len() as int) =~= cats.deep_view());
        assert(out.deep_view() =~= cats.deep_view());
    }
    out
}

/// The image URLs of a product as a plain list of strings.
pub fn image_srcs(images: &Vec<Image>) -> (r: Vec<String>)
    ensures
        r.deep_view() == images.deep_view(),
{
    let mut out: Vec<String> = Vec::new();
    let mut i: usize = 0;
    while i < images.len()
        invariant
            i <= images@.len(),
            out.deep_view() =~= images.deep_view().take(i as int),
        decreases images@.len() - i,
    {
        let ghost prev = out.deep_view();
        let url = images[i].src.clone();
        let ghost uv = url@;
        out.push(url);
        proof {
            assert(out.deep_view() =~= prev.push(uv));
            assert(out.deep_view() =~= images.deep_view().take(i as int + 1));
        }
        i += 1;
    }
    proof {
        assert(images.deep_view().take(images@.len() as int) =~= images.deep_view());
        assert(out.deep_view() =~= images.deep_view());
    }
    out
}

fn na_or_join(items: &Vec<String>) -> (r: String)
    ensures
        r@ == spec_na_or_join(items.deep_view()),
{
    if items.len() == 0 {
        let mut out = String::new();
        out.append("N/A");
        out
    } else {
        join_comma_space(items)
    }
}

impl WooCommerceProduct {
    /// A human-readable, line-per-field rendering of the product, with
    /// `N/A` standing in for empty lists and absent stock.
    pub fn debug(&self) -> (r: String)
        ensures
            r@ == spec_wc_debug(self@),
    {
        let cat_list = category_names(&self.categories);
        let categories_str = na_or_join(&cat_list);
        let img_list = image_srcs(&self.images);
        let images_str = na_or_join(&img_list);
        let stock_qty = match &self.stock_quantity {
            None => {
                let mut s = String::new();
                s.append("N/A");
                s
            },
            Some(x) => u32_dec(*x),
        };
        let mut out = String::new();
        out.append("--- WOOCOMMERCE PRODUCT ---\nNAME: ");
        out.append(self.name.as_str());
        out.append("\nDESC: ");
        out.append(self.description.as_str());
        out.append("\nPRICE: ");
        out.append(self.regular_price.as_str());
        out.append("\nCATEGORIES: ");
        out.append(categories_str.as_str());
        out.append("\nIMAGES URL: ");
        out.append(images_str.as_str());
        out.append("\nSTOCK_QTTY: ");
        out.append(stock_qty.as_str());
        out.append("\nSTATUS: ");
        out.append(self.status.as_str());
        out.append("\nSERIAL: ");
        out.append(self.sku.as_str());
        out
    }
}

} // verus!

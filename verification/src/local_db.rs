//! The slim snapshot rows kept in the local product database, and the
//! computations around them: projecting fetched storefront products down
//! to snapshot rows, and looking a SKU up in a loaded snapshot. Reading
//! and writing the file itself is the host application's job.
use vstd::prelude::*;

use crate::models::{Product, ProductView};
use crate::text::str_eq;

verus! {

/// The mathematical shape of one snapshot row.
pub struct LocalProductView {
    pub name: Seq<char>,
    pub sku: Seq<char>,
    pub price: Seq<char>,
    pub status: Seq<char>,
}

/// One row of the local snapshot database.
#[derive(Debug, Clone)]
pub struct LocalProduct {
    pub name: String,
    pub sku: String,
    pub price: String,
    pub status: String,
}

impl View for LocalProduct {
    type V = LocalProductView;

    open spec fn view(&self) -> LocalProductView {
        LocalProductView {
            name: self.name@,
            sku: self.sku@,
            price: self.price@,
            status: self.status@,
        }
    }
}

impl DeepView for LocalProduct {
    type V = LocalProductView;

    open spec fn deep_view(&self) -> LocalProductView {
        self.view()
    }
}

/// The snapshot row for one storefront product: name, SKU, price and
/// status carried over, everything else dropped.
pub open spec fn spec_local_product_of(p: ProductView) -> LocalProductView {
    LocalProductView { name: p.name, sku: p.sku, price: p.regular_price, status: p.status }
}

/// Every product projected to its snapshot row, in order.
pub open spec fn spec_local_products(s: Seq<ProductView>) -> Seq<LocalProductView>
    decreases s.len(),
{
    if s.len() == 0 {
        Seq::empty()
    } else {
        spec_local_products(s.drop_last()).push(spec_local_product_of(s.last()))
    }
}

/// Projects a fetched product list down to the snapshot rows that get
/// written to the local database.
pub fn local_products_of(products: &Vec<Product>) -> (r: Vec<LocalProduct>)
    ensures
        r.deep_view() == spec_local_products(products.deep_view()),
{
    let mut out: Vec<LocalProduct> = Vec::new();
    let mut i: usize = 0;
    proof {
        assert(products.deep_view().take(0) =~= Seq::<ProductView>::empty());
        assert(out.deep_view() =~= spec_local_products(products.deep_view().take(0)));
    }
    while i < products.len()
        invariant
            i <= products@.len(),
            out.deep_view() == spec_local_products(products.deep_view().take(i as int)),
        decreases products@.len() - i,
    {
        let ghost prev = out.deep_view();
        proof {
            assert(products.deep_view().take(i as int + 1).drop_last() =~= products
                .deep_view()
                .take(i as int));
            assert(products.deep_view().take(i as int + 1).last() == products.deep_view()[
                i as int
            ]);
        }
        let p = &products[i];
        let row = LocalProduct {
            name: p.name.clone(),
            sku: p.sku.clone(),
            price: p.regular_price.clone(),
            status: p.status.clone(),
        };
        let ghost rv = row@;
        out.push(row);
        proof {
            assert(out.deep_view() =~= prev.push(rv));
            assert(out.deep_view() =~= spec_local_products(
                products.deep_view().take(i as int + 1),
            ));
        }
        i += 1;
    }
    proof {
        assert(products.deep_view().take(products@.len() as int) =~= products.deep_view());
    }
    out
}

/// Whether some snapshot row carries the given SKU.
pub open spec fn spec_sku_known(rows: Seq<LocalProductView>, sku: Seq<char>) -> bool {
    exists|k: int| 0 <= k < rows.len() && rows[k].sku == sku
}

/// Looks a SKU up in the loaded snapshot, as the comparison report does
/// for each marketplace row.
pub fn sku_known(rows: &Vec<LocalProduct>, sku: &str) -> (r: bool)
    ensures
        r == spec_sku_known(rows.deep_view(), sku@),
{
    let mut i: usize = 0;
    while i < rows.len()
        invariant
            i <= rows@.len(),
            forall|j: int| 0 <= j < i ==> rows.deep_view()[j].sku != sku@,
        decreases rows@.len() - i,
    {
        if str_eq(rows[i].sku.as_str(), sku) {
            proof {
                assert(rows.deep_view()[i as int].sku == sku@);
            }
            return true;
        }
        i += 1;
    }
    false
}

} // verus!

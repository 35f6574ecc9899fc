//! The canonical item model and the reconciliation core. Both native
//! product shapes are adapted into `LocalObject`, tagged with the system
//! that produced them and fingerprinted by display name; a session holds
//! the two partitions; the reconciler reports which marketplace items
//! the storefront is missing.
use vstd::prelude::*;

use crate::hashing::{hash_name, spec_identity};
use crate::obj_vd::{ObjVendoo, VendooProduct, VendooProductView};
use crate::obj_wc::{
    category_names, image_srcs, Category, Image, ObjWooCommerce, WooCommerceProduct,
    WooCommerceProductView,
};
use crate::text::{
    join_comma_space, opt_or_default, opt_or_empty, opt_string_or, opt_string_or_empty,
    spec_join_comma_space, spec_split_commas, split_commas, str_eq,
};

verus! {

/// Which source system produced a canonical item. An item never changes
/// partition after creation.
#[derive(Debug, Clone, Copy)]
pub enum Sig {
    WC,
    VD,
}

/// Where a serialized snapshot of a session lives.
#[derive(Debug, Clone, Copy)]
pub enum JsonBuffer {
    LocalBuffer,
    RemoteBuffer,
}

/// The mathematical shape of a canonical item.
pub struct LocalObjectView {
    pub sig: Sig,
    pub hash_hex: Seq<char>,
    pub name: Seq<char>,
    pub regular_price: Seq<char>,
    pub description: Seq<char>,
    pub categories: Seq<char>,
    pub images: Seq<Seq<char>>,
    pub stock_quantity: Option<u32>,
    pub status: Seq<char>,
    pub sku: Seq<char>,
}

/// The canonical item: the unified representation both source systems
/// normalize into. `hash_hex` is the content identity, a function of
/// `name` alone, computed once at adapter time.
#[derive(Debug, Clone)]
pub struct LocalObject {
    pub sig: Sig,
    pub hash_hex: String,
    pub name: String,
    pub regular_price: String,
    pub description: String,
    pub categories: String,
    pub images: Vec<String>,
    pub stock_quantity: Option<u32>,
    pub status: String,
    pub sku: String,
}

impl View for LocalObject {
    type V = LocalObjectView;

    open spec fn view(&self) -> LocalObjectView {
        LocalObjectView {
            sig: self.sig,
            hash_hex: self.hash_hex@,
            name: self.name@,
            regular_price: self.regular_price@,
            description: self.description@,
            categories: self.categories@,
            images: self.images.deep_view(),
            stock_quantity: self.stock_quantity,
            status: self.status@,
            sku: self.sku@,
        }
    }
}

impl DeepView for LocalObject {
    type V = LocalObjectView;

    open spec fn deep_view(&self) -> LocalObjectView {
        self.view()
    }
}

/// The stock-quantity policy both adapters apply: a source quantity of
/// exactly zero (or an absent one) is normalized to "no value", treated
/// as unlimited/unspecified stock rather than as zero.
pub open spec fn spec_fold_zero(q: Option<u32>) -> Option<u32> {
    match q {
        Some(x) => if x == 0 {
            None
        } else {
            Some(x)
        },
        None => None,
    }
}

/// How one marketplace row maps onto the canonical shape.
pub open spec fn spec_from_vendoo(v: VendooProductView) -> LocalObjectView {
    LocalObjectView {
        sig: Sig::VD,
        hash_hex: spec_identity(opt_or_empty(v.title)),
        name: opt_or_empty(v.title),
        regular_price: opt_or_default(v.price, "0"@),
        description: opt_or_empty(v.description),
        categories: opt_or_empty(v.category),
        images: seq![opt_or_empty(v.images)],
        stock_quantity: spec_fold_zero(v.quantity_left),
        status: opt_or_empty(v.status),
        sku: opt_or_empty(v.sku),
    }
}

/// How one storefront product maps onto the canonical shape: the
/// category labels collapse into one comma-joined field with a trailing
/// separator.
pub open spec fn spec_from_wc(w: WooCommerceProductView) -> LocalObjectView {
    LocalObjectView {
        sig: Sig::WC,
        hash_hex: spec_identity(w.name),
        name: w.name,
        regular_price: w.regular_price,
        description: w.description,
        categories: spec_join_comma_space(w.categories),
        images: w.images,
        stock_quantity: spec_fold_zero(w.stock_quantity),
        status: w.status,
        sku: w.sku,
    }
}

/// The reverse mapping, canonical item back to the storefront create
/// shape: the comma-joined category field splits back into labels
/// (including any empty trailing piece the join produced).
pub open spec fn spec_to_wc(l: LocalObjectView) -> WooCommerceProductView {
    WooCommerceProductView {
        name: l.name,
        regular_price: l.regular_price,
        description: l.description,
        categories: spec_split_commas(l.categories),
        images: l.images,
        stock_quantity: l.stock_quantity,
        status: l.status,
        sku: l.sku,
    }
}

/// The executable zero-folding step.
pub fn fold_zero(q: Option<u32>) -> (r: Option<u32>)
    ensures
        r == spec_fold_zero(q),
{
    match q {
        Some(0) => None,
        Some(x) => Some(x),
        None => None,
    }
}

fn clone_strings(v: &Vec<String>) -> (r: Vec<String>)
    ensures
        r.deep_view() == v.deep_view(),
{
    let mut out: Vec<String> = Vec::new();
    let mut i: usize = 0;
    while i < v.len()
        invariant
            i <= v@.len(),
            out.deep_view() =~= v.deep_view().take(i as int),
        decreases v@.len() - i,
    {
        let ghost prev = out.deep_view();
        let s = v[i].clone();
        let ghost sv = s@;
        out.push(s);
        proof {
            assert(out.deep_view() =~= prev.push(sv));
            assert(out.deep_view() =~= v.deep_view().take(i as int + 1));
        }
        i += 1;
    }
    proof {
        assert(v.deep_view().take(v@.len() as int) =~= v.deep_view());
        assert(out.deep_view() =~= v.deep_view());
    }
    out
}

impl LocalObject {
    /// A field-for-field copy of the item.
    pub fn duplicate(&self) -> (r: Self)
        ensures
            r@ == self@,
    {
        let r = LocalObject {
            sig: self.sig,
            hash_hex: self.hash_hex.clone(),
            name: self.name.clone(),
            regular_price: self.regular_price.clone(),
            description: self.description.clone(),
            categories: self.categories.clone(),
            images: clone_strings(&self.images),
            stock_quantity: self.stock_quantity,
            status: self.status.clone(),
            sku: self.sku.clone(),
        };
        r
    }

    /// Adapts one marketplace row into a canonical item: absent fields
    /// default to empty text, the price string defaults to "0", the
    /// single combined image reference becomes a one-element list, a
    /// zero quantity folds to "no value", and the identity is computed
    /// from the mapped name alone.
    pub fn from_vendoo_object(vprod: &VendooProduct) -> (r: Self)
        ensures
            r@ == spec_from_vendoo(vprod@),
    {
        let image = opt_string_or_empty(&vprod.images);
        let ghost iv = image@;
        let mut images: Vec<String> = Vec::new();
        images.push(image);
        proof {
            assert(images.deep_view() =~= seq![iv]);
        }
        let name = opt_string_or_empty(&vprod.title);
        let description = opt_string_or_empty(&vprod.description);
        let sku = opt_string_or_empty(&vprod.sku);
        let category = opt_string_or_empty(&vprod.category);
        let price = opt_string_or(&vprod.price, "0");
        let status = opt_string_or_empty(&vprod.status);
        let stock_quantity = fold_zero(vprod.quantity_left);
        let hash_hex = hash_name(name.as_str());
        LocalObject {
            sig: Sig::VD,
            hash_hex,
            name,
            regular_price: price,
            description,
            categories: category,
            images,
            stock_quantity,
            status,
            sku,
        }
    }

    /// Adapts one storefront product into a canonical item: category
    /// labels are comma-joined with a trailing separator, image URLs are
    /// kept as a list, a zero quantity folds to "no value", and the
    /// identity is computed from the name alone.
    pub fn from_woocommerce_object(wprod: &WooCommerceProduct) -> (r: Self)
        ensures
            r@ == spec_from_wc(wprod@),
    {
        let images = image_srcs(&wprod.images);
        let cat_names = category_names(&wprod.categories);
        let categories = join_comma_space(&cat_names);
        let name = wprod.name.clone();
        let stock_quantity = fold_zero(wprod.stock_quantity);
        let hash_hex = hash_name(name.as_str());
        LocalObject {
            sig: Sig::WC,
            hash_hex,
            name,
            regular_price: wprod.regular_price.clone(),
            description: wprod.description.clone(),
            categories,
            images,
            stock_quantity,
            status: wprod.status.clone(),
            sku: wprod.sku.clone(),
        }
    }

    /// Converts the canonical item back into the storefront create
    /// shape, splitting the comma-joined category field back into
    /// labels.
    pub fn to_woocommerce_object(&mut self) -> (r: WooCommerceProduct)
        ensures
            *final(self) == *old(self),
            r@ == spec_to_wc(old(self)@),
    {
        let mut images: Vec<Image> = Vec::new();
        let mut i: usize = 0;
        while i < self.images.len()
            invariant
                i <= self.images@.len(),
                *self == *old(self),
                images.deep_view() =~= self.images.deep_view().take(i as int),
            decreases self.images@.len() - i,
        {
            let ghost prev = images.deep_view();
            let url = self.images[i].clone();
            let ghost uv = url@;
            images.push(Image { src: url });
            proof {
                assert(images.deep_view() =~= prev.push(uv));
                assert(images.deep_view() =~= self.images.deep_view().take(i as int + 1));
            }
            i += 1;
        }
        proof {
            assert(self.images.deep_view().take(self.images@.len() as int) =~= self
                .images
                .deep_view());
        }
        let split = split_commas(self.categories.as_str());
        let mut categories: Vec<Category> = Vec::new();
        let mut j: usize = 0;
        while j < split.len()
            invariant
                j <= split@.len(),
                categories.deep_view() =~= split.deep_view().take(j as int),
            decreases split@.len() - j,
        {
            let ghost prev = categories.deep_view();
            let label = split[j].clone();
            let ghost lv = label@;
            categories.push(Category { name: label });
            proof {
                assert(categories.deep_view() =~= prev.push(lv));
                assert(categories.deep_view() =~= split.deep_view().take(j as int + 1));
            }
            j += 1;
        }
        proof {
            assert(split.deep_view().take(split@.len() as int) =~= split.deep_view());
        }
        WooCommerceProduct {
            name: self.name.clone(),
            regular_price: self.regular_price.clone(),
            description: self.description.clone(),
            categories,
            images,
            stock_quantity: self.stock_quantity,
            status: self.status.clone(),
            sku: self.sku.clone(),
        }
    }
}

/// The items of one origin, kept in input order.
pub open spec fn spec_partition(s: Seq<LocalObjectView>, keep: Sig) -> Seq<LocalObjectView>
    decreases s.len(),
{
    if s.len() == 0 {
        Seq::empty()
    } else {
        let rest = spec_partition(s.drop_last(), keep);
        if s.last().sig == keep {
            rest.push(s.last())
        } else {
            rest
        }
    }
}

/// The identities of a partition, in order.
pub open spec fn spec_hashes(s: Seq<LocalObjectView>) -> Seq<Seq<char>> {
    s.map_values(|o: LocalObjectView| o.hash_hex)
}

/// Whether some item of the partition carries the given identity.
pub open spec fn has_hash(s: Seq<LocalObjectView>, h: Seq<char>) -> bool {
    exists|k: int| 0 <= k < s.len() && s[k].hash_hex == h
}

/// Whether a sequence of identities contains the given one.
pub open spec fn seq_has(hs: Seq<Seq<char>>, h: Seq<char>) -> bool {
    exists|k: int| 0 <= k < hs.len() && hs[k] == h
}

/// Looking an identity up in the partition is the same as looking it up
/// among the partition's identities.
pub proof fn lemma_seq_has_hashes(s: Seq<LocalObjectView>, h: Seq<char>)
    ensures
        seq_has(spec_hashes(s), h) == has_hash(s, h),
{
    if seq_has(spec_hashes(s), h) {
        let k = choose|k: int| 0 <= k < spec_hashes(s).len() && spec_hashes(s)[k] == h;
        assert(s[k].hash_hex == h);
    }
    if has_hash(s, h) {
        let k = choose|k: int| 0 <= k < s.len() && s[k].hash_hex == h;
        assert(spec_hashes(s)[k] == h);
    }
}

/// The marketplace items with exact status "Active" whose identity the
/// storefront partition does not carry, in input order. Items with the
/// sentinel identity only ever match a storefront item that itself
/// carries the literal sentinel.
pub open spec fn spec_needs_publishing(
    wp: Seq<LocalObjectView>,
    vp: Seq<LocalObjectView>,
) -> Seq<LocalObjectView>
    decreases vp.len(),
{
    if vp.len() == 0 {
        Seq::empty()
    } else {
        let rest = spec_needs_publishing(wp, vp.drop_last());
        let v = vp.last();
        if v.status == "Active"@ && !has_hash(wp, v.hash_hex) {
            rest.push(v)
        } else {
            rest
        }
    }
}

/// How many "Active" marketplace items the storefront already carries.
pub open spec fn spec_matched_count(wp: Seq<LocalObjectView>, vp: Seq<LocalObjectView>) -> nat
    decreases vp.len(),
{
    if vp.len() == 0 {
        0
    } else {
        spec_matched_count(wp, vp.drop_last()) + {
            let v = vp.last();
            if v.status == "Active"@ && has_hash(wp, v.hash_hex) {
                1nat
            } else {
                0nat
            }
        }
    }
}

/// How many marketplace items carry the exact status "Active".
pub open spec fn spec_active_count(vp: Seq<LocalObjectView>) -> nat
    decreases vp.len(),
{
    if vp.len() == 0 {
        0
    } else {
        spec_active_count(vp.drop_last()) + if vp.last().status == "Active"@ {
            1nat
        } else {
            0nat
        }
    }
}

/// Every "Active" marketplace item is accounted for exactly once by a
/// reconciliation run: the matched count plus the number of items that
/// need publishing equals the number of "Active" items.
pub proof fn lemma_reconcile_partition(wp: Seq<LocalObjectView>, vp: Seq<LocalObjectView>)
    ensures
        spec_matched_count(wp, vp) + spec_needs_publishing(wp, vp).len() == spec_active_count(vp),
    decreases vp.len(),
{
    if vp.len() > 0 {
        lemma_reconcile_partition(wp, vp.drop_last());
    }
}

/// A partition holds exactly the items of its own origin.
pub proof fn lemma_partition_origin(s: Seq<LocalObjectView>, keep: Sig)
    ensures
        forall|i: int|
            0 <= i < spec_partition(s, keep).len() ==> #[trigger] spec_partition(s, keep)[i].sig
                == keep,
    decreases s.len(),
{
    if s.len() > 0 {
        lemma_partition_origin(s.drop_last(), keep);
    }
}

/// Adapting marketplace rows yields marketplace-origin items only.
pub proof fn lemma_vd_locals_origin(s: Seq<VendooProductView>)
    ensures
        forall|i: int|
            0 <= i < spec_vd_locals(s).len() ==> #[trigger] spec_vd_locals(s)[i].sig is VD,
    decreases s.len(),
{
    if s.len() > 0 {
        lemma_vd_locals_origin(s.drop_last());
    }
}

/// Adapting storefront products yields storefront-origin items only.
pub proof fn lemma_wc_locals_origin(s: Seq<WooCommerceProductView>)
    ensures
        forall|i: int|
            0 <= i < spec_wc_locals(s).len() ==> #[trigger] spec_wc_locals(s)[i].sig is WC,
    decreases s.len(),
{
    if s.len() > 0 {
        lemma_wc_locals_origin(s.drop_last());
    }
}

/// When the marketplace partition holds marketplace-origin items only
/// (as every session construction path guarantees), so does the list
/// that needs publishing: a reconciliation result carries items of
/// marketplace origin and no others.
pub proof fn lemma_needs_publishing_origin(wp: Seq<LocalObjectView>, vp: Seq<LocalObjectView>)
    requires
        forall|i: int| 0 <= i < vp.len() ==> #[trigger] vp[i].sig is VD,
    ensures
        forall|i: int|
            0 <= i < spec_needs_publishing(wp, vp).len() ==> #[trigger] spec_needs_publishing(
                wp,
                vp,
            )[i].sig is VD,
    decreases vp.len(),
{
    if vp.len() > 0 {
        assert(forall|i: int| 0 <= i < vp.drop_last().len() ==> #[trigger] vp.drop_last()[i].sig
            is VD);
        lemma_needs_publishing_origin(wp, vp.drop_last());
    }
}

/// Reconciliation is deterministic: run on identical inputs it yields
/// the identical matched count and the identical needs-publishing list,
/// same contents in the same order.
pub proof fn lemma_reconcile_deterministic(
    wp1: Seq<LocalObjectView>,
    vp1: Seq<LocalObjectView>,
    wp2: Seq<LocalObjectView>,
    vp2: Seq<LocalObjectView>,
)
    requires
        wp1 == wp2,
        vp1 == vp2,
    ensures
        spec_needs_publishing(wp1, vp1) == spec_needs_publishing(wp2, vp2),
        spec_matched_count(wp1, vp1) == spec_matched_count(wp2, vp2),
{
}

/// A reconciliation session: the canonical items of both systems,
/// partitioned by origin, plus the bookkeeping the hosting interfaces
/// expect (total count and a cursor).
#[derive(Debug, Clone)]
pub struct LocalSession {
    pub n: i32,
    pub local_vp: Vec<LocalObject>,
    pub local_wp: Vec<LocalObject>,
    pub current_idx: i32,
}

fn contains_hash(hs: &Vec<String>, h: &String) -> (r: bool)
    ensures
        r == seq_has(hs.deep_view(), h@),
{
    let mut i: usize = 0;
    while i < hs.len()
        invariant
            i <= hs@.len(),
            forall|j: int| 0 <= j < i ==> hs.deep_view()[j] != h@,
        decreases hs@.len() - i,
    {
        if str_eq(hs[i].as_str(), h.as_str()) {
            proof {
                assert(hs.deep_view()[i as int] == h@);
            }
            return true;
        }
        i += 1;
    }
    false
}

impl LocalSession {
    /// Builds a session from an already-loaded flat list of canonical
    /// items (a local snapshot), partitioning them by origin in input
    /// order.
    pub fn from_local_products(vlp: Vec<LocalObject>) -> (r: Self)
        requires
            vlp@.len() <= i32::MAX,
        ensures
            r.n == vlp@.len(),
            r.local_vp.deep_view() == spec_partition(vlp.deep_view(), Sig::VD),
            r.local_wp.deep_view() == spec_partition(vlp.deep_view(), Sig::WC),
            r.current_idx == 0,
    {
        let mut n: i32 = 0;
        let mut local_vp: Vec<LocalObject> = Vec::new();
        let mut local_wp: Vec<LocalObject> = Vec::new();
        let current_idx: i32 = 0;
        let mut i: usize = 0;
        proof {
            assert(vlp.deep_view().take(0) =~= Seq::<LocalObjectView>::empty());
            assert(local_vp.deep_view() =~= spec_partition(vlp.deep_view().take(0), Sig::VD));
            assert(local_wp.deep_view() =~= spec_partition(vlp.deep_view().take(0), Sig::WC));
        }
        while i < vlp.len()
            invariant
                i <= vlp@.len(),
                vlp@.len() <= i32::MAX,
                n == i,
                local_vp.deep_view() == spec_partition(vlp.deep_view().take(i as int), Sig::VD),
                local_wp.deep_view() == spec_partition(vlp.deep_view().take(i as int), Sig::WC),
            decreases vlp@.len() - i,
    {
            let ghost prev_vp = local_vp.deep_view();
            let ghost prev_wp = local_wp.deep_view();
            proof {
                assert(vlp.deep_view().take(i as int + 1).drop_last() =~= vlp.deep_view().take(
                    i as int,
                ));
                assert(vlp.deep_view().take(i as int + 1).last() == vlp.deep_view()[i as int]);
            }
            n += 1;
            let lp = vlp[i].duplicate();
            let ghost lv = lp@;
            match lp.sig {
                Sig::WC => {
                    local_wp.push(lp);
                    proof {
                        assert(local_wp.deep_view() =~= prev_wp.push(lv));
                        assert(local_wp.deep_view() =~= spec_partition(
                            vlp.deep_view().take(i as int + 1),
                            Sig::WC,
                        ));
                        assert(local_vp.deep_view() =~= spec_partition(
                            vlp.deep_view().take(i as int + 1),
                            Sig::VD,
                        ));
                    }
                },
                Sig::VD => {
                    local_vp.push(lp);
                    proof {
                        assert(local_vp.deep_view() =~= prev_vp.push(lv));
                        assert(local_vp.deep_view() =~= spec_partition(
                            vlp.deep_view().take(i as int + 1),
                            Sig::VD,
                        ));
                        assert(local_wp.deep_view() =~= spec_partition(
                            vlp.deep_view().take(i as int + 1),
                            Sig::WC,
                        ));
                    }
                },
            }
            i += 1;
        }
        proof {
            assert(vlp.deep_view().take(vlp@.len() as int) =~= vlp.deep_view());
        }
        Self { n, local_vp, local_wp, current_idx }
    }

    /// Builds a session straight from the two fetched collections,
    /// adapting every storefront product and every marketplace row into
    /// canonical items. An absent product list contributes nothing.
    pub fn from_session(wp_obj: ObjWooCommerce, vd_obj: ObjVendoo) -> (r: Self)
        requires
            spec_opt_len(wp_obj.products.deep_view()) + spec_opt_len(vd_obj.products.deep_view())
                <= i32::MAX,
        ensures
            r.n == spec_opt_len(wp_obj.products.deep_view()) + spec_opt_len(
                vd_obj.products.deep_view(),
            ),
            r.local_wp.deep_view() == spec_wc_locals(spec_opt_items(wp_obj.products.deep_view())),
            r.local_vp.deep_view() == spec_vd_locals(spec_opt_items(vd_obj.products.deep_view())),
            r.current_idx == 0,
    {
        let mut n: i32 = 0;
        let mut local_vp: Vec<LocalObject> = Vec::new();
        let mut local_wp: Vec<LocalObject> = Vec::new();
        let current_idx: i32 = 0;

        match &wp_obj.products {
            Some(ps) => {
                let mut i: usize = 0;
                proof {
                    assert(ps.deep_view().take(0) =~= Seq::<WooCommerceProductView>::empty());
                    assert(local_wp.deep_view() =~= spec_wc_locals(ps.deep_view().take(0)));
                }
                while i < ps.len()
                    invariant
                        i <= ps@.len(),
                        ps@.len() <= i32::MAX,
                        n == i,
                        local_wp.deep_view() == spec_wc_locals(ps.deep_view().take(i as int)),
                    decreases ps@.len() - i,
                {
                    let ghost prev = local_wp.deep_view();
                    proof {
                        assert(ps.deep_view().take(i as int + 1).drop_last() =~= ps
                            .deep_view()
                            .take(i as int));
                        assert(ps.deep_view().take(i as int + 1).last() == ps.deep_view()[i as int]);
                    }
                    let lwp = LocalObject::from_woocommerce_object(&ps[i]);
                    let ghost lv = lwp@;
                    local_wp.push(lwp);
                    n += 1;
                    proof {
                        assert(local_wp.deep_view() =~= prev.push(lv));
                        assert(local_wp.deep_view() =~= spec_wc_locals(
                            ps.deep_view().take(i as int + 1),
                        ));
                    }
                    i += 1;
                }
                proof {
                    assert(ps.deep_view().take(ps@.len() as int) =~= ps.deep_view());
                }
            },
            None => {},
        }

        match &vd_obj.products {
            Some(ps) => {
                let ghost n_wc = n as int;
                let mut i: usize = 0;
                proof {
                    assert(ps.deep_view().take(0) =~= Seq::<VendooProductView>::empty());
                    assert(local_vp.deep_view() =~= spec_vd_locals(ps.deep_view().take(0)));
                }
                while i < ps.len()
                    invariant
                        i <= ps@.len(),
                        n_wc + ps@.len() <= i32::MAX,
                        n == n_wc + i,
                        local_vp.deep_view() == spec_vd_locals(ps.deep_view().take(i as int)),
                    decreases ps@.len() - i,
                {
                    let ghost prev = local_vp.deep_view();
                    proof {
                        assert(ps.deep_view().take(i as int + 1).drop_last() =~= ps
                            .deep_view()
                            .take(i as int));
                        assert(ps.deep_view().take(i as int + 1).last() == ps.deep_view()[i as int]);
                    }
                    let vdp = LocalObject::from_vendoo_object(&ps[i]);
                    let ghost lv = vdp@;
                    local_vp.push(vdp);
                    n += 1;
                    proof {
                        assert(local_vp.deep_view() =~= prev.push(lv));
                        assert(local_vp.deep_view() =~= spec_vd_locals(
                            ps.deep_view().take(i as int + 1),
                        ));
                    }
                    i += 1;
                }
                proof {
                    assert(ps.deep_view().take(ps@.len() as int) =~= ps.deep_view());
                }
            },
            None => {},
        }

        Self { n, local_vp, local_wp, current_idx }
    }

    /// The reconciler: matches marketplace items against the storefront
    /// partition by identity. Only items with exact status "Active" take
    /// part; each is either already carried by the storefront (counted)
    /// or appended, in input order, to the list that needs publishing.
    /// Pure: the session is only read, and the outcome is a function of
    /// the two partitions.
    ///
    /// Two status conventions exist side by side, deliberately: this
    /// reconciler goes by the marketplace export's exact casing
    /// "Active", while the CSV batch-upload path's eligibility test
    /// ([`crate::text::is_active_status`]) ignores ASCII case.
    pub fn compare_wc_vd(&self) -> (r: (i32, Vec<LocalObject>))
        requires
            self.local_vp@.len() <= i32::MAX,
        ensures
            r.0 == spec_matched_count(self.local_wp.deep_view(), self.local_vp.deep_view()),
            r.1.deep_view() == spec_needs_publishing(
                self.local_wp.deep_view(),
                self.local_vp.deep_view(),
            ),
    {
        let ghost wpv = self.local_wp.deep_view();
        let ghost vpv = self.local_vp.deep_view();
        let mut matched: i32 = 0;
        let mut need_posted: Vec<LocalObject> = Vec::new();

        let mut wp_hashes: Vec<String> = Vec::new();
        let mut i: usize = 0;
        proof {
            assert(wpv.take(0) =~= Seq::<LocalObjectView>::empty());
            assert(wp_hashes.deep_view() =~~= spec_hashes(wpv.take(0)));
        }
        while i < self.local_wp.len()
            invariant
                i <= self.local_wp@.len(),
                wpv == self.local_wp.deep_view(),
                wp_hashes.deep_view() == spec_hashes(wpv.take(i as int)),
            decreases self.local_wp@.len() - i,
        {
            let ghost prev = wp_hashes.deep_view();
            let h = self.local_wp[i].hash_hex.clone();
            let ghost hv = h@;
            wp_hashes.push(h);
            proof {
                assert(wp_hashes.deep_view() =~= prev.push(hv));
                assert(wp_hashes.deep_view() =~~= spec_hashes(wpv.take(i as int + 1)));
            }
            i += 1;
        }
        proof {
            assert(wpv.take(self.local_wp@.len() as int) =~= wpv);
            assert(wp_hashes.deep_view() =~~= spec_hashes(wpv));
        }

        let mut k: usize = 0;
        proof {
            assert(vpv.take(0) =~= Seq::<LocalObjectView>::empty());
            assert(need_posted.deep_view() =~= spec_needs_publishing(wpv, vpv.take(0)));
        }
        while k < self.local_vp.len()
            invariant
                k <= self.local_vp@.len(),
                self.local_vp@.len() <= i32::MAX,
                wpv == self.local_wp.deep_view(),
                vpv == self.local_vp.deep_view(),
                wp_hashes.deep_view() == spec_hashes(wpv),
                matched <= k,
                matched == spec_matched_count(wpv, vpv.take(k as int)),
                need_posted.deep_view() == spec_needs_publishing(wpv, vpv.take(k as int)),
            decreases self.local_vp@.len() - k,
        {
            let ghost prev = need_posted.deep_view();
            proof {
                assert(vpv.take(k as int + 1).drop_last() =~= vpv.take(k as int));
                assert(vpv.take(k as int + 1).last() == vpv[k as int]);
                lemma_seq_has_hashes(wpv, vpv[k as int].hash_hex);
            }
            let vp_object = &self.local_vp[k];
            if str_eq(vp_object.status.as_str(), "Active") {
                if contains_hash(&wp_hashes, &vp_object.hash_hex) {
                    matched += 1;
                } else {
                    let dup = vp_object.duplicate();
                    let ghost dv = dup@;
                    need_posted.push(dup);
                    proof {
                        assert(need_posted.deep_view() =~= prev.push(dv));
                        assert(need_posted.deep_view() =~= spec_needs_publishing(
                            wpv,
                            vpv.take(k as int + 1),
                        ));
                    }
                }
            }
            k += 1;
        }
        proof {
            assert(vpv.take(self.local_vp@.len() as int) =~= vpv);
        }
        (matched, need_posted)
    }
}

/// How many items an optional fetched list holds.
pub open spec fn spec_opt_len<T>(o: Option<Seq<T>>) -> nat {
    match o {
        Some(s) => s.len(),
        None => 0,
    }
}

/// The items of an optional fetched list, or nothing.
pub open spec fn spec_opt_items<T>(o: Option<Seq<T>>) -> Seq<T> {
    match o {
        Some(s) => s,
        None => Seq::empty(),
    }
}

/// Every storefront product adapted, in order.
pub open spec fn spec_wc_locals(s: Seq<WooCommerceProductView>) -> Seq<LocalObjectView>
    decreases s.len(),
{
    if s.len() == 0 {
        Seq::empty()
    } else {
        spec_wc_locals(s.drop_last()).push(spec_from_wc(s.last()))
    }
}

/// Every marketplace row adapted, in order.
pub open spec fn spec_vd_locals(s: Seq<VendooProductView>) -> Seq<LocalObjectView>
    decreases s.len(),
{
    if s.len() == 0 {
        Seq::empty()
    } else {
        spec_vd_locals(s.drop_last()).push(spec_from_vendoo(s.last()))
    }
}

} // verus!

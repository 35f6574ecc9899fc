//! Catalog reconciliation between a WooCommerce storefront and a Vendoo
//! marketplace export: both product shapes are normalized into one canonical
//! item model, each item gets a content identity derived from its display
//! name, and the reconciler reports which marketplace items the storefront
//! is missing so they can be published to it.
use vstd::prelude::*;

pub mod hashing;
pub mod local;
pub mod local_db;
pub mod models;
pub mod obj_vd;
pub mod obj_wc;
pub mod publish;
pub mod text;

verus! {

/// Connection and file configuration handed in by the host application.
/// The engine itself never reads ambient state; everything it needs is
/// passed in through this value.
#[derive(Default, Debug, Clone)]
pub struct BasicEnv {
    pub wc_url: String,
    pub wc_ck: String,
    pub wc_sk: String,
    pub csv_path: String,
    pub json_path: String,
}

} // verus!

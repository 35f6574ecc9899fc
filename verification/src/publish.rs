//! The publisher's outcome policy. The HTTP POST itself is issued by the
//! host application; what is decided here, and proved, is how a response
//! status or a transport error turns into the per-item outcome: success
//! exactly on a 2xx status, and a non-empty human-readable detail on
//! every failure. One item's failure never raises past this boundary,
//! so a batch loop can always continue with the next item.
use vstd::prelude::*;
use vstd::string::StringExecFns;

use crate::local::LocalObject;
use crate::text::{spec_dec, u32_dec};

verus! {

/// The per-item result of one publish attempt: the item it concerns,
/// whether the storefront accepted it, and on failure a human-readable
/// detail. Created per publish call and handed straight back to the
/// caller.
#[derive(Debug, Clone)]
pub struct PublishOutcome {
    pub item: LocalObject,
    pub succeeded: bool,
    pub error_detail: Option<String>,
}

/// A publish attempt succeeds exactly on a 2xx response status.
pub open spec fn spec_status_success(status: u16) -> bool {
    200 <= status < 300
}

/// The detail reported when the storefront answers with a non-2xx
/// status.
pub open spec fn spec_status_error_detail(status: u16) -> Seq<char> {
    "Failed to create product: "@ + spec_dec(status as nat)
}

/// Builds the outcome for a publish attempt that got an HTTP response:
/// success on 2xx with no detail, failure otherwise with the status
/// spelled out in a non-empty detail.
pub fn outcome_from_status(item: LocalObject, status: u16) -> (r: PublishOutcome)
    ensures
        r.item@ == item@,
        r.succeeded == spec_status_success(status),
        spec_status_success(status) ==> r.error_detail is None,
        !spec_status_success(status) ==> r.error_detail is Some && r.error_detail.unwrap()@
            == spec_status_error_detail(status) && r.error_detail.unwrap()@.len() > 0,
{
    if 200 <= status && status < 300 {
        PublishOutcome { item, succeeded: true, error_detail: None }
    } else {
        let mut msg = String::new();
        msg.append("Failed to create product: ");
        let code = u32_dec(status as u32);
        msg.append(code.as_str());
        proof {
            reveal_strlit("Failed to create product: ");
        }
        PublishOutcome { item, succeeded: false, error_detail: Some(msg) }
    }
}

/// Builds the outcome for a publish attempt that never got a response
/// (the transport failed). Always a failure with a non-empty detail:
/// the transport's own message, or a fixed marker when the transport
/// supplied none.
pub fn outcome_from_transport_error(item: LocalObject, detail: String) -> (r: PublishOutcome)
    ensures
        r.item@ == item@,
        !r.succeeded,
        r.error_detail is Some,
        detail@.len() > 0 ==> r.error_detail.unwrap()@ == detail@,
        detail@.len() == 0 ==> r.error_detail.unwrap()@ == "transport error"@,
        r.error_detail.unwrap()@.len() > 0,
{
    if detail.as_str().is_empty() {
        let mut msg = String::new();
        msg.append("transport error");
        proof {
            reveal_strlit("transport error");
        }
        PublishOutcome { item, succeeded: false, error_detail: Some(msg) }
    } else {
        PublishOutcome { item, succeeded: false, error_detail: Some(detail) }
    }
}

} // verus!

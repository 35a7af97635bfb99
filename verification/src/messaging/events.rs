//! Events that services publish on the message bus.

use vstd::prelude::*;
use vstd::string::StringExecFns;

verus! {

/// An event that knows the subject under which it is published.
pub trait LanaiEvent {
    /// The subject of the event.
    fn subject(&self) -> String;
}

/// The subject of the event that a product was created in the organisation
/// `org_id`.
pub fn product_created_subject(org_id: &str) -> (subject: String)
    ensures
        subject@ == "lanai.inventory.product.created."@ + org_id@,
{
    String::from_str("lanai.inventory.product.created.").concat(org_id)
}

/// The subject of the event that a return was completed in the organisation
/// `org_id`.
pub fn return_completed_subject(org_id: &str) -> (subject: String)
    ensures
        subject@ == "lanai.sales.return.completed."@ + org_id@,
{
    String::from_str("lanai.sales.return.completed.").concat(org_id)
}

} // verus!

use vstd::prelude::*;

use crate::error::{ApiError, ApiErrorView};

verus! {

/// The sender of the service's mail, `Do Not Reply <address>`.
pub open spec fn sender_of(address: Seq<char>) -> Seq<char> {
    "Do Not Reply <"@ + address + ">"@
}

/// The sender mailbox for the mail account's address.
pub fn sender_mailbox(address: &str) -> (r: String)
    ensures
        r@ == sender_of(address@),
{
    String::from_str("Do Not Reply <").concat(address).concat(">")
}

/// The answer to handing a message to the mail server: success, or an
/// internal error that carries the server's complaint.
pub fn delivery_result(sent: Result<(), String>) -> (r: Result<(), ApiError>)
    ensures
        sent is Ok <==> r is Ok,
        sent matches Err(m) ==> (r matches Err(e) && e@ == ApiErrorView::InternalServerErrorWithMessage(m@)),
{
    match sent {
        Ok(()) => Ok(()),
        Err(m) => Err(ApiError::InternalServerErrorWithMessage(m)),
    }
}

} // verus!

//! Content: the name a block is stored under.

use crate::models::content::NewContentRequest;
use crate::naming::{store_name, stored_name};
use vstd::prelude::*;

verus! {

/// The request to create a block of content, with the name under which it is
/// stored.
pub fn named_for_store(request: NewContentRequest) -> (r: NewContentRequest)
    ensures
        r.page_id == request.page_id,
        r.name@ == stored_name(request.name@),
        r.body == request.body,
{
    NewContentRequest {
        page_id: request.page_id,
        name: store_name(request.name.as_str()),
        body: request.body,
    }
}

} // verus!

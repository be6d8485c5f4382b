//! Collections resolved into the addresses of their members.

use crate::error::{outcome, Failure, RedfishError};
use crate::json::{json_text, Json};
use crate::model::{collection_of, fetched, links};
use crate::redfish::RedfishCollection;
use vstd::prelude::*;

verus! {

/// What comes of a response body that is to be resolved as a collection:
/// the addresses of its members, in its order, or the failure.
pub open spec fn resolved(doc: Result<Json, Seq<char>>) -> Result<Seq<Seq<char>>, Failure> {
    match fetched(doc, |j: Json| collection_of(j)) {
        Ok(c) => Ok(links(c)),
        Err(f) => Err(f),
    }
}

/// Resolves the body of a collection into the addresses of its members, one
/// for each member and in the order of the body. The members themselves
/// are fetched by the caller, one request each. Fails with `Malformed` where
/// the body is no JSON, with `Mismatch` where it is JSON and no collection.
pub fn resolve_collection(body: &str) -> (r: Result<Vec<String>, RedfishError>)
    ensures
        outcome(r) == resolved(json_text(body@)),
{
    match RedfishCollection::read(body) {
        Ok(c) => Ok(c.uris()),
        Err(e) => Err(e),
    }
}

} // verus!

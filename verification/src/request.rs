//! Interpreting a client request into the key list the snapshot selector
//! consumes.

use vstd::prelude::*;

verus! {

/// A client request for progress information: an optional single key and an
/// optional list of keys. Both may be present at once; an absent request means
/// "all tracked jobs".
#[derive(Debug, Clone)]
pub struct GetProgressRequest {
    pub single: Option<String>,
    pub list: Option<Vec<String>>,
}

/// The key list a request denotes: the list field if present, with the single
/// key appended after it if present. Duplicates are kept; an absent request
/// denotes the empty list, which downstream means "all tracked jobs".
pub open spec fn requested_keys(item: Option<GetProgressRequest>) -> Seq<String> {
    match item {
        None => Seq::empty(),
        Some(req) => {
            let base = match req.list {
                Some(l) => l@,
                None => Seq::empty(),
            };
            match req.single {
                Some(s) => base.push(s),
                None => base,
            }
        },
    }
}

/// Normalizes a request into the single ordered key list to query: the list
/// first, then the single key. No deduplication and no validation happens
/// here; unknown and repeated keys are resolved downstream.
pub fn progress_keys_of(item: Option<GetProgressRequest>) -> (r: Vec<String>)
    ensures
        r@ == requested_keys(item),
{
    match item {
        None => Vec::new(),
        Some(req) => {
            let mut key_list = match req.list {
                Some(l) => l,
                None => Vec::new(),
            };
            if let Some(s) = req.single {
                key_list.push(s);
            }
            key_list
        },
    }
}

} // verus!

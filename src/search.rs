use vstd::prelude::*;

verus! {

/// A place found by searching the location API, with the state as the API wrote it.
#[derive(Clone, Debug)]
pub struct SearchResult {
    pub geohash: String,
    pub id: String,
    pub name: String,
    pub postcode: String,
    pub state: String,
}

#[derive(Clone, Debug)]
pub struct SearchMetadata {
    pub copyright: String,
    pub response_timestamp: String,
}

#[derive(Clone, Debug)]
pub struct SearchResponse {
    pub data: Vec<SearchResult>,
    pub metadata: SearchMetadata,
}

} // verus!

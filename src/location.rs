use vstd::prelude::*;

use crate::text::{find_char, first_index, push_str, string_of};

verus! {

/// The states and territories, written in upper case.
#[derive(Clone, Copy, Debug, PartialEq, Eq, Structural)]
pub enum State {
    Act,
    Nsw,
    Vic,
    Qld,
    Tas,
    Sa,
    Nt,
    Wa,
}

impl State {
    pub open spec fn spec_code(self) -> Seq<char> {
        match self {
            State::Act => "ACT"@,
            State::Nsw => "NSW"@,
            State::Vic => "VIC"@,
            State::Qld => "QLD"@,
            State::Tas => "TAS"@,
            State::Sa => "SA"@,
            State::Nt => "NT"@,
            State::Wa => "WA"@,
        }
    }

    pub open spec fn spec_product_prefix(self) -> Seq<char> {
        match self {
            State::Nt => "IDD"@,
            State::Nsw => "IDN"@,
            State::Act => "IDN"@,
            State::Qld => "IDQ"@,
            State::Sa => "IDS"@,
            State::Tas => "IDT"@,
            State::Vic => "IDV"@,
            State::Wa => "IDW"@,
        }
    }

    /// The state's abbreviation.
    pub fn code(&self) -> (r: &'static str)
        ensures
            r@ == self.spec_code(),
    {
        match self {
            State::Act => "ACT",
            State::Nsw => "NSW",
            State::Vic => "VIC",
            State::Qld => "QLD",
            State::Tas => "TAS",
            State::Sa => "SA",
            State::Nt => "NT",
            State::Wa => "WA",
        }
    }

    /// The bureau's product code for `id` in this state: the state's office prefix
    /// followed by `id`; the ACT shares the NSW office.
    pub fn get_product_code(&self, id: &str) -> (r: String)
        ensures
            r@ == self.spec_product_prefix() + id@,
    {
        let prefix = match self {
            State::Nt => "IDD",
            State::Nsw => "IDN",
            State::Act => "IDN",
            State::Qld => "IDQ",
            State::Sa => "IDS",
            State::Tas => "IDT",
            State::Vic => "IDV",
            State::Wa => "IDW",
        };
        let mut s = string_of(prefix);
        push_str(&mut s, id);
        s
    }
}

/// A place found by searching the location API.
#[derive(Clone, Debug)]
pub struct SearchResult {
    pub geohash: String,
    pub id: String,
    pub name: String,
    pub postcode: String,
    pub state: State,
}

#[derive(Clone, Debug)]
pub struct SearchMetadata {
    pub copyright: String,
    pub response_timestamp: String,
}

#[derive(Clone, Debug)]
pub struct SearchResponse {
    pub data: Vec<SearchResult>,
    pub metadata: SearchMetadata,
}

#[derive(Clone, Debug)]
pub struct LocationMetadata {
    pub copyright: String,
    pub response_timestamp: String,
}

/// A location ID `name-geohash` split at its first `-`.
pub open spec fn split_location_id(id: Seq<char>) -> Option<(Seq<char>, Seq<char>)> {
    match first_index(id, '-') {
        Some(i) => Some((id.subrange(0, i), id.subrange(i + 1, id.len() as int))),
        None => None,
    }
}

/// Splits a location ID such as `Canberra-r3dp5hh` into the place name and the geohash.
pub fn parse_location_id(id: &str) -> (r: Option<(String, String)>)
    ensures
        match r {
            Some((name, geohash)) => split_location_id(id@) == Some((name@, geohash@)),
            None => split_location_id(id@) is None,
        },
{
    match find_char(id, '-') {
        Some(i) => {
            let n = id.unicode_len();
            let name = string_of(id.substring_char(0, i));
            let geohash = string_of(id.substring_char(i + 1, n));
            Some((name, geohash))
        },
        None => None,
    }
}

/// The first search result with exactly this name and geohash.
pub fn find_search_result(results: &Vec<SearchResult>, name: &str, geohash: &str) -> (r: Option<usize>)
    ensures
        match r {
            Some(i) => i < results@.len() && results@[i as int].name@ == name@
                && results@[i as int].geohash@ == geohash@ && forall|j: int|
                0 <= j < i ==> !(results@[j].name@ == name@ && results@[j].geohash@ == geohash@),
            None => forall|j: int|
                0 <= j < results@.len() ==> !(results@[j].name@ == name@ && results@[j].geohash@
                    == geohash@),
        },
{
    let mut i: usize = 0;
    while i < results.len()
        invariant
            i <= results@.len(),
            forall|j: int|
                0 <= j < i ==> !(results@[j].name@ == name@ && results@[j].geohash@ == geohash@),
        decreases results@.len() - i,
    {
        let r = &results[i];
        if same_text(r.name.as_str(), name) && same_text(r.geohash.as_str(), geohash) {
            return Some(i);
        }
        i = i + 1;
    }
    None
}

/// Whether two strings hold the same characters.
pub fn same_text(a: &str, b: &str) -> (r: bool)
    ensures
        r == (a@ == b@),
{
    let n = a.unicode_len();
    let r = crate::radar::substring_equals(a, 0, n, b);
    assert(a@.subrange(0, n as int) =~= a@);
    r
}

} // verus!

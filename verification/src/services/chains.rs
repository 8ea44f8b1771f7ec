//! The chain-listing endpoint's upstream URL.

use vstd::prelude::*;

verus! {

/// The upstream path for one page of the chain list.
pub open spec fn chains_url_spec(limit: Option<Seq<char>>) -> Seq<char> {
    "/v1/chains/?limit="@.add(
        match limit {
            Some(l) => l,
            None => Seq::<char>::empty(),
        },
    )
}

/// Builds the upstream path for one page of the chain list; no limit
/// reads as an empty limit parameter.
pub fn chains_url(limit: &Option<String>) -> (r: String)
    ensures
        r@ == chains_url_spec(match *limit {
            Some(l) => Some(l@),
            None => None,
        }),
{
    let r = match limit.as_ref() {
        Some(l) => "/v1/chains/?limit=".to_owned().concat(l.as_str()),
        None => "/v1/chains/?limit=".to_owned(),
    };
    proof {
        assert(r@ =~= chains_url_spec(match *limit {
            Some(l) => Some(l@),
            None => None,
        }));
    }
    r
}

} // verus!

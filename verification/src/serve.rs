//! The boundary contract of the row-serving layer. The HTTP plumbing and
//! the row fetch itself are external; the library fixes only what the
//! routes decide: the paging defaults and the status of each reply.

use vstd::prelude::*;

verus! {

/// Query parameters of the table route.
#[derive(Clone, Debug)]
pub struct Params {
    pub limit: Option<usize>,
    pub offset: Option<usize>,
    pub table: Option<String>,
}

/// The paging a request actually uses: an absent limit or offset defaults
/// to zero.
pub fn effective_paging(p: &Params) -> (r: (usize, usize))
    ensures
        r.0 == (match p.limit {
            Some(l) => l,
            None => 0usize,
        }),
        r.1 == (match p.offset {
            Some(o) => o,
            None => 0usize,
        }),
{
    let l = match p.limit {
        Some(l) => l,
        None => 0,
    };
    let o = match p.offset {
        Some(o) => o,
        None => 0,
    };
    (l, o)
}

/// The status code of the table route's reply: found-with-body on a
/// successful row fetch, not-found on any fetch error. No other status is
/// ever produced by that route.
pub fn table_response_status(fetch_ok: bool) -> (s: u16)
    ensures
        fetch_ok ==> s == 302,
        !fetch_ok ==> s == 404,
{
    if fetch_ok {
        302
    } else {
        404
    }
}

} // verus!

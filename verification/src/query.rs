//! Query parameters: pagination and the parameters that are only sent when
//! the caller gave them.

use crate::request::{invalid_params, owned, Rejection, RejectionView};
use crate::text::{decimal, decimal_string};
use vstd::prelude::*;

verus! {

/// A query: name and value pairs, in order.
pub type Query = Vec<(String, String)>;

/// A query's pairs with their text as characters.
pub open spec fn query_view(q: Query) -> Seq<(Seq<char>, Seq<char>)> {
    q.deep_view()
}

/// The text of a boolean: `true` or `false`.
pub open spec fn bool_text(b: bool) -> Seq<char> {
    if b {
        "true"@
    } else {
        "false"@
    }
}

/// Appends the pair `(name, value)` to `query`.
pub fn push_param(query: &mut Query, name: &str, value: String)
    ensures
        query_view(*final(query)) == query_view(*old(query)).push((name@, value@)),
{
    let ghost before = query_view(*query);
    query.push((owned(name), value));
    assert(query_view(*query) =~= before.push((name@, value@)));
}

/// The text of a boolean.
pub fn bool_string(b: bool) -> (s: String)
    ensures
        s@ == bool_text(b),
{
    if b {
        owned("true")
    } else {
        owned("false")
    }
}

/// The pages that a pagination request asks for: page (default 1) and
/// page size (default 30), or the message of the first check that fails.
pub open spec fn pagination_outcome(page: Option<u32>, per_page: Option<u32>) -> Result<
    (nat, nat),
    Seq<char>,
> {
    let p = match page {
        Some(n) => n as nat,
        None => 1,
    };
    let s = match per_page {
        Some(n) => n as nat,
        None => 30,
    };
    if p == 0 {
        Err("page must be at least 1"@)
    } else if !(1 <= s && s <= 100) {
        Err("per_page must be between 1 and 100"@)
    } else {
        Ok((p, s))
    }
}

/// The query for a page: `page` then `per_page`.
pub open spec fn page_query(page: nat, per_page: nat) -> Seq<(Seq<char>, Seq<char>)> {
    seq![("page"@, decimal(page)), ("per_page"@, decimal(per_page))]
}

/// Checks the page and page size and builds their query parameters.
pub fn pagination(page: Option<u32>, per_page: Option<u32>) -> (r: Result<Query, Rejection>)
    ensures
        match pagination_outcome(page, per_page) {
            Ok((p, s)) => r matches Ok(q) && query_view(q) == page_query(p, s),
            Err(m) => r matches Err(e) && e@ == RejectionView::InvalidParams(m),
        },
{
    let p: u32 = match page {
        Some(n) => n,
        None => 1,
    };
    let s: u32 = match per_page {
        Some(n) => n,
        None => 30,
    };
    if p == 0 {
        return Err(invalid_params("page must be at least 1"));
    }
    if !(1 <= s && s <= 100) {
        return Err(invalid_params("per_page must be between 1 and 100"));
    }
    let mut q: Query = Vec::new();
    assert(query_view(q) =~= Seq::<(Seq<char>, Seq<char>)>::empty());
    push_param(&mut q, "page", decimal_string(p as u64));
    push_param(&mut q, "per_page", decimal_string(s as u64));
    assert(query_view(q) =~= page_query(p as nat, s as nat));
    Ok(q)
}

/// What an optional text parameter adds: the pair when the value is given
/// and not empty, nothing otherwise.
pub open spec fn optional_pairs(name: Seq<char>, value: Option<Seq<char>>) -> Seq<
    (Seq<char>, Seq<char>),
> {
    match value {
        Some(v) => if v.len() > 0 {
            seq![(name, v)]
        } else {
            Seq::empty()
        },
        None => Seq::empty(),
    }
}

/// The view of an optional string.
pub open spec fn opt_view(value: Option<String>) -> Option<Seq<char>> {
    match value {
        Some(v) => Some(v@),
        None => None,
    }
}

/// Adds `name=value` when `value` is given and not empty.
pub fn optional(query: &mut Query, name: &str, value: Option<String>)
    ensures
        query_view(*final(query)) == query_view(*old(query)) + optional_pairs(name@, opt_view(value)),
{
    match value {
        Some(v) => {
            if v.as_str().is_empty() {
                assert(query_view(*query) + optional_pairs(name@, opt_view(Some(v))) =~= query_view(
                    *query,
                ));
            } else {
                let ghost before = query_view(*query);
                push_param(query, name, v);
                assert(before.push((name@, v@)) =~= before + optional_pairs(name@, Some(v@)));
            }
        },
        None => {
            assert(query_view(*query) + optional_pairs(name@, None) =~= query_view(*query));
        },
    }
}

/// What an optional boolean parameter adds: the pair when the value is
/// given, nothing otherwise.
pub open spec fn optional_bool_pairs(name: Seq<char>, value: Option<bool>) -> Seq<
    (Seq<char>, Seq<char>),
> {
    match value {
        Some(b) => seq![(name, bool_text(b))],
        None => Seq::empty(),
    }
}

/// Adds `name=true` or `name=false` when `value` is given.
pub fn optional_bool(query: &mut Query, name: &str, value: Option<bool>)
    ensures
        query_view(*final(query)) == query_view(*old(query)) + optional_bool_pairs(name@, value),
{
    match value {
        Some(b) => {
            let ghost before = query_view(*query);
            push_param(query, name, bool_string(b));
            assert(before.push((name@, bool_text(b))) =~= before + optional_bool_pairs(name@, value));
        },
        None => {
            assert(query_view(*query) + optional_bool_pairs(name@, None) =~= query_view(*query));
        },
    }
}

/// Every page from 1 on and every page size from 1 to 100 is accepted, and
/// gives the query `page=<page>&per_page=<page size>`.
pub proof fn law_pagination_accepts_valid_pages(page: u32, per_page: u32)
    requires
        1 <= page,
        1 <= per_page <= 100,
    ensures
        pagination_outcome(Some(page), Some(per_page)) == Ok::<(nat, nat), Seq<char>>(
            (page as nat, per_page as nat),
        ),
        page_query(page as nat, per_page as nat) == seq![
            ("page"@, decimal(page as nat)),
            ("per_page"@, decimal(per_page as nat)),
        ],
{
}

/// Pagination is turned down exactly when the page is 0 or the page size is
/// outside 1 to 100; without them it asks for page 1 of 30 items.
pub proof fn law_pagination_rejects_only_bad_pages(page: Option<u32>, per_page: Option<u32>)
    ensures
        pagination_outcome(page, per_page) is Err <==> (page == Some(0u32) || (per_page matches Some(
            s,
        ) && !(1 <= s && s <= 100))),
        pagination_outcome(None, None) == Ok::<(nat, nat), Seq<char>>((1, 30)),
{
}

} // verus!

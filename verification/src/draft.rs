//! Merge request titles and GitLab's draft markers.
//!
//! GitLab treats a title that starts with `Draft:`, `Draft -`, `[Draft]`,
//! `(Draft)`, `WIP:`, `WIP -`, `[WIP]` or `(WIP)` (in any letter case) as a
//! draft. Marking or unmarking a draft rewrites that prefix.

use crate::text::{
    ascii_lower, chars_of, eq_ignore_case, has_prefix, is_space, lemma_trim_start_shape,
    leading_space_len, push_str, to_ascii_lower, trim_start,
};
use vstd::prelude::*;

verus! {

/// The draft markers, in the order they are tried.
pub open spec fn draft_prefixes() -> Seq<Seq<char>> {
    seq![
        "Draft:"@,
        "Draft -"@,
        "[Draft]"@,
        "(Draft)"@,
        "WIP:"@,
        "WIP -"@,
        "[WIP]"@,
        "(WIP)"@,
    ]
}

/// Whether `t` begins with the marker `p`, ignoring ASCII letter case.
pub open spec fn marker_at_start(t: Seq<char>, p: Seq<char>) -> bool {
    p.len() <= t.len() && eq_ignore_case(t.subrange(0, p.len() as int), p)
}

/// `t` with the first of the markers `ps[i..]` that it begins with removed,
/// together with the whitespace after it; `t` itself when none matches.
pub open spec fn strip_from(t: Seq<char>, ps: Seq<Seq<char>>, i: int) -> Seq<char>
    decreases ps.len() - i,
{
    if i < 0 || i >= ps.len() {
        t
    } else if marker_at_start(t, ps[i]) {
        trim_start(t.skip(ps[i].len() as int))
    } else {
        strip_from(t, ps, i + 1)
    }
}

/// `t` without its draft marker.
pub open spec fn stripped(t: Seq<char>) -> Seq<char> {
    strip_from(t, draft_prefixes(), 0)
}

/// The title a merge request gets when it is marked (`draft`) or unmarked
/// as a draft: leading whitespace and any draft marker go, and `Draft: ` is
/// put in front when marking.
pub open spec fn draft_title(title: Seq<char>, draft: bool) -> Seq<char> {
    let s = stripped(trim_start(title));
    if draft {
        "Draft: "@ + s
    } else {
        s
    }
}

/// The `i`-th draft marker.
fn draft_prefix(i: usize) -> (p: &'static str)
    requires
        i < 8,
    ensures
        p@ == draft_prefixes()[i as int],
{
    match i {
        0 => "Draft:",
        1 => "Draft -",
        2 => "[Draft]",
        3 => "(Draft)",
        4 => "WIP:",
        5 => "WIP -",
        6 => "[WIP]",
        _ => "(WIP)",
    }
}

/// Whether `t` begins with `p`, ignoring ASCII letter case.
fn starts_with_ignore_case(t: &[char], p: &[char]) -> (b: bool)
    ensures
        b == marker_at_start(t@, p@),
{
    if p.len() > t.len() {
        return false;
    }
    let mut i: usize = 0;
    while i < p.len()
        invariant
            p@.len() <= t@.len(),
            i <= p@.len(),
            forall|j: int| 0 <= j < i ==> ascii_lower(t@[j]) == ascii_lower(p@[j]),
        decreases p@.len() - i,
    {
        if to_ascii_lower(t[i]) != to_ascii_lower(p[i]) {
            proof {
                let a = crate::text::ascii_lower_seq(t@.subrange(0, p@.len() as int));
                let b = crate::text::ascii_lower_seq(p@);
                assert(a[i as int] != b[i as int]);
            }
            return false;
        }
        i = i + 1;
    }
    assert(crate::text::ascii_lower_seq(t@.subrange(0, p@.len() as int)) =~= crate::text::ascii_lower_seq(p@));
    true
}

/// Removes a leading draft marker and the whitespace after it.
pub fn strip_draft_prefix(title: &str) -> (r: &str)
    ensures
        r@ == stripped(title@),
{
    let t = chars_of(title);
    let n: usize = t.len();
    let mut i: usize = 0;
    while i < 8
        invariant
            t@ == title@,
            n == t@.len(),
            i <= 8,
            strip_from(title@, draft_prefixes(), 0) == strip_from(title@, draft_prefixes(), i as int),
        decreases 8 - i,
    {
        let p = draft_prefix(i);
        let pc = chars_of(p);
        if starts_with_ignore_case(t.as_slice(), pc.as_slice()) {
            let rest = Ghost(title@.skip(pc@.len() as int));
            let k: usize = pc.len();
            let mut j: usize = k;
            while j < n && crate::text::is_whitespace(t[j])
                invariant
                    t@ == title@,
                    n == t@.len(),
                    k <= j <= n,
                    rest@ == title@.skip(k as int),
                    forall|m: int| 0 <= m < j - k ==> is_space(#[trigger] rest@[m]),
                decreases n - j,
            {
                assert(rest@[j - k] == t@[j as int]);
                j = j + 1;
            }
            proof {
                crate::text::lemma_trim_start_skip(rest@, j - k);
                let u = rest@.skip(j - k);
                if u.len() > 0 {
                    assert(u[0] == t@[j as int]);
                }
                assert(u =~= title@.subrange(j as int, n as int));
            }
            return title.substring_char(j, n);
        }
        i = i + 1;
    }
    assert(title.view().subrange(0, n as int) =~= title@);
    title.substring_char(0, n)
}

/// Marks or unmarks a merge request title as a draft.
pub fn set_draft_title(title: &str, draft: bool) -> (s: String)
    ensures
        s@ == draft_title(title@, draft),
{
    let t = chars_of(title);
    let k = leading_space_len(t.as_slice());
    let trimmed = title.substring_char(k, t.len());
    let rest = strip_draft_prefix(trimmed);
    let mut s = String::new();
    if draft {
        push_str(&mut s, "Draft: ");
    }
    push_str(&mut s, rest);
    s
}

proof fn lemma_stripped_is_trimmed_from(t: Seq<char>, i: int)
    requires
        trim_start(t) == t,
    ensures
        trim_start(strip_from(t, draft_prefixes(), i)) == strip_from(t, draft_prefixes(), i),
    decreases draft_prefixes().len() - i,
{
    if i < 0 || i >= draft_prefixes().len() {
    } else if marker_at_start(t, draft_prefixes()[i]) {
        lemma_trim_start_shape(t.skip(draft_prefixes()[i].len() as int));
    } else {
        lemma_stripped_is_trimmed_from(t, i + 1);
    }
}

/// A title without its marker has no leading whitespace.
proof fn lemma_stripped_is_trimmed(title: Seq<char>)
    ensures
        trim_start(draft_title(title, false)) == draft_title(title, false),
{
    lemma_trim_start_shape(title);
    lemma_stripped_is_trimmed_from(trim_start(title), 0);
}

/// Stripping a title that starts with `Draft: ` gives what followed it,
/// once that has no leading whitespace.
proof fn lemma_strip_marked(s: Seq<char>)
    requires
        trim_start(s) == s,
    ensures
        trim_start("Draft: "@ + s) == "Draft: "@ + s,
        stripped("Draft: "@ + s) == s,
{
    reveal_strlit("Draft: ");
    reveal_strlit("Draft:");
    let m = "Draft: "@ + s;
    assert(m[0] == 'D');
    assert(!is_space(m[0]));
    let p = draft_prefixes()[0];
    assert(p == "Draft:"@);
    assert(m.subrange(0, 6) =~= p);
    assert(marker_at_start(m, p));
    assert(m.skip(6) =~= seq![' '] + s);
    assert((seq![' '] + s).drop_first() =~= s);
}

/// Marking a title as a draft twice gives the same title as marking it once.
pub proof fn law_mark_draft_idempotent(title: Seq<char>)
    ensures
        draft_title(draft_title(title, true), true) == draft_title(title, true),
{
    lemma_stripped_is_trimmed(title);
    lemma_strip_marked(draft_title(title, false));
}

/// Unmarking a title that was just marked as a draft gives the same title as
/// unmarking the original.
pub proof fn law_unmark_after_mark(title: Seq<char>)
    ensures
        draft_title(draft_title(title, true), false) == draft_title(title, false),
{
    lemma_stripped_is_trimmed(title);
    lemma_strip_marked(draft_title(title, false));
}

/// A title marked as a draft starts with `Draft: `.
pub proof fn law_marked_title_prefix(title: Seq<char>)
    ensures
        has_prefix(draft_title(title, true), "Draft: "@),
{
    let s = draft_title(title, false);
    assert(("Draft: "@ + s).subrange(0, "Draft: "@.len() as int) =~= "Draft: "@);
}

/// The title of a new merge request: `Draft: ` is put in front when it is
/// created as a draft and the title does not already start with `Draft:`.
pub open spec fn new_merge_request_title(title: Seq<char>, draft: Option<bool>) -> Seq<char> {
    if draft == Some(true) && !has_prefix(title, "Draft:"@) {
        "Draft: "@ + title
    } else {
        title
    }
}

/// Builds the title of a new merge request.
pub fn merge_request_title(title: String, draft: Option<bool>) -> (s: String)
    ensures
        s@ == new_merge_request_title(title@, draft),
{
    let is_draft = match draft {
        Some(b) => b,
        None => false,
    };
    if is_draft {
        let t = chars_of(title.as_str());
        let marker = chars_of("Draft:");
        if !crate::text::starts_with(t.as_slice(), marker.as_slice()) {
            let mut s = String::new();
            push_str(&mut s, "Draft: ");
            push_str(&mut s, title.as_str());
            return s;
        }
    }
    title
}

/// A merge request created as a draft gets a title that starts with
/// `Draft:`: the given title unchanged exactly when it already starts with
/// `Draft:`, and `Draft: ` followed by the given title otherwise. A merge
/// request not created as a draft keeps the given title.
pub proof fn law_new_draft_title(title: Seq<char>)
    ensures
        has_prefix(new_merge_request_title(title, Some(true)), "Draft:"@),
        (new_merge_request_title(title, Some(true)) == title) == has_prefix(title, "Draft:"@),
        !has_prefix(title, "Draft:"@) ==> new_merge_request_title(title, Some(true)) == "Draft: "@
            + title,
        new_merge_request_title(title, Some(false)) == title,
        new_merge_request_title(title, None) == title,
{
    reveal_strlit("Draft:");
    reveal_strlit("Draft: ");
    if !has_prefix(title, "Draft:"@) {
        let r = "Draft: "@ + title;
        assert(r.subrange(0, 6) =~= "Draft:"@);
        assert(r.len() != title.len());
    }
}

} // verus!

//! The `review_merge_request_context` tool: the requests it makes, how the
//! answers are put together, and the summary of what came back.

use crate::json::{
    get, get_array, get_bool, json_array, json_bool, json_get, member_names, member_values, Json,
};
use crate::query::{push_param, query_view, Query};
use crate::request::{invalid_params, owned, ApiRequest, Rejection, RejectionView};
use crate::text::{decimal, decimal_string, push_str};
use crate::tools::{get_request, get_view, project_item_path, project_item_path_of};
use vstd::prelude::*;

verus! {

/// The query of the merge request itself: the diverged commit count and the
/// rebase state are asked for.
pub open spec fn merge_request_query() -> Seq<(Seq<char>, Seq<char>)> {
    seq![("include_diverged_commits_count"@, "true"@), ("include_rebase_in_progress"@, "true"@)]
}

/// The query of a collection section: the first page of `per_page` items.
pub open spec fn collection_query(per_page: nat) -> Seq<(Seq<char>, Seq<char>)> {
    seq![("page"@, "1"@), ("per_page"@, decimal(per_page))]
}

/// The requests of a review: the merge request, and each section unless it
/// was switched off.
#[derive(Debug)]
pub struct ReviewPlan {
    pub merge_request: ApiRequest,
    pub sections: SectionRequests,
}

/// The requests of a review's optional sections; a section switched off has
/// none.
#[derive(Debug)]
pub struct SectionRequests {
    pub diffs: Option<ApiRequest>,
    pub commits: Option<ApiRequest>,
    pub discussions: Option<ApiRequest>,
    pub related_issues: Option<ApiRequest>,
    pub pipelines: Option<ApiRequest>,
    pub approvals: Option<ApiRequest>,
}

/// Whether a planned section matches its switch: present exactly when not
/// switched off, and then a `GET` of `path` with `query`.
pub open spec fn planned_section(
    on: Option<bool>,
    planned: Option<ApiRequest>,
    path: Seq<char>,
    query: Seq<(Seq<char>, Seq<char>)>,
) -> bool {
    match planned {
        Some(q) => on != Some(false) && q@ == get_view(path, query),
        None => on == Some(false),
    }
}

/// The page size of a review's collections: the given one or 30.
pub open spec fn review_page_size(per_page: Option<u32>) -> nat {
    match per_page {
        Some(n) => n as nat,
        None => 30,
    }
}

fn collection(per_page: u32) -> (q: Query)
    ensures
        query_view(q) == collection_query(per_page as nat),
{
    let mut q: Query = Vec::new();
    assert(query_view(q) =~= Seq::<(Seq<char>, Seq<char>)>::empty());
    push_param(&mut q, "page", owned("1"));
    push_param(&mut q, "per_page", decimal_string(per_page as u64));
    assert(query_view(q) =~= collection_query(per_page as nat));
    q
}

fn section(on: Option<bool>, project: &str, iid: u64, tail: &str, query: Query) -> (r: Option<
    ApiRequest,
>)
    ensures
        planned_section(
            on,
            r,
            project_item_path_of(project@, "/merge_requests/"@, iid, tail@),
            query_view(query),
        ),
{
    let enabled = match on {
        Some(b) => b,
        None => true,
    };
    if enabled {
        Some(get_request(project_item_path(project, "/merge_requests/", iid, tail), query))
    } else {
        None
    }
}

/// `review_merge_request_context`: checks the page size and plans the
/// requests of a review.
pub fn review_merge_request_context(
    project: &str,
    iid: u64,
    include_diffs: Option<bool>,
    include_commits: Option<bool>,
    include_discussions: Option<bool>,
    include_related_issues: Option<bool>,
    include_pipelines: Option<bool>,
    include_approvals: Option<bool>,
    per_page: Option<u32>,
) -> (r: Result<ReviewPlan, Rejection>)
    ensures
        ({
            let s = review_page_size(per_page);
            let base = project_item_path_of(project@, "/merge_requests/"@, iid, ""@);
            let section_path = |tail: Seq<char>| project_item_path_of(project@, "/merge_requests/"@, iid, tail);
            if !(1 <= s && s <= 100) {
                r matches Err(e) && e@ == RejectionView::InvalidParams(
                    "per_page must be between 1 and 100"@,
                )
            } else {
                r matches Ok(p) && p.merge_request@ == get_view(base, merge_request_query())
                    && planned_section(include_diffs, p.sections.diffs, section_path("/diffs"@), collection_query(s))
                    && planned_section(
                    include_commits,
                    p.sections.commits,
                    section_path("/commits"@),
                    collection_query(s),
                ) && planned_section(
                    include_discussions,
                    p.sections.discussions,
                    section_path("/discussions"@),
                    collection_query(s),
                ) && planned_section(
                    include_related_issues,
                    p.sections.related_issues,
                    section_path("/related_issues"@),
                    Seq::empty(),
                ) && planned_section(
                    include_pipelines,
                    p.sections.pipelines,
                    section_path("/pipelines"@),
                    collection_query(s),
                ) && planned_section(include_approvals, p.sections.approvals, section_path("/approvals"@), Seq::empty())
            }
        }),
{
    let s: u32 = match per_page {
        Some(n) => n,
        None => 30,
    };
    if !(1 <= s && s <= 100) {
        return Err(invalid_params("per_page must be between 1 and 100"));
    }
    let mut mq: Query = Vec::new();
    assert(query_view(mq) =~= Seq::<(Seq<char>, Seq<char>)>::empty());
    push_param(&mut mq, "include_diverged_commits_count", owned("true"));
    push_param(&mut mq, "include_rebase_in_progress", owned("true"));
    assert(query_view(mq) =~= merge_request_query());
    let merge_request = get_request(project_item_path(project, "/merge_requests/", iid, ""), mq);
    let empty1: Query = Vec::new();
    assert(query_view(empty1) =~= Seq::<(Seq<char>, Seq<char>)>::empty());
    let empty2: Query = Vec::new();
    assert(query_view(empty2) =~= Seq::<(Seq<char>, Seq<char>)>::empty());
    Ok(
        ReviewPlan {
            merge_request,
            sections: SectionRequests {
                diffs: section(include_diffs, project, iid, "/diffs", collection(s)),
                commits: section(include_commits, project, iid, "/commits", collection(s)),
                discussions: section(
                    include_discussions,
                    project,
                    iid,
                    "/discussions",
                    collection(s),
                ),
                related_issues: section(
                    include_related_issues,
                    project,
                    iid,
                    "/related_issues",
                    empty1,
                ),
                pipelines: section(include_pipelines, project, iid, "/pipelines", collection(s)),
                approvals: section(include_approvals, project, iid, "/approvals", empty2),
            },
        },
    )
}

/// A review whose merge request was fetched: its document, and the
/// sections still to fetch.
#[derive(Debug)]
pub struct ReviewStart {
    pub merge_request: Json,
    pub sections: SectionRequests,
}

/// Goes on from the fetch of the merge request itself: when it failed, the
/// whole review fails with its error text and no section is fetched;
/// otherwise the sections are fetched next.
pub fn start_review(fetched: Result<Json, String>, sections: SectionRequests) -> (r: Result<
    ReviewStart,
    Rejection,
>)
    ensures
        match fetched {
            Err(e) => r matches Err(x) && x@ == RejectionView::ToolError(e@),
            Ok(doc) => r matches Ok(st) && st.merge_request == doc && st.sections == sections,
        },
{
    match fetched {
        Err(e) => Err(Rejection::ToolError(e)),
        Ok(doc) => Ok(ReviewStart { merge_request: doc, sections }),
    }
}

/// How many items the array member `name` holds; zero when it is absent or
/// not an array.
pub open spec fn returned_count(ctx: Json, name: Seq<char>) -> nat {
    match json_array(json_get(ctx, name)) {
        Some(items) => items.len(),
        None => 0,
    }
}

/// Whether a note can be resolved and has not been.
pub open spec fn note_is_open(note: Json) -> bool {
    json_bool(json_get(note, "resolvable"@)) == Some(true) && json_bool(
        json_get(note, "resolved"@),
    ) != Some(true)
}

/// Whether a discussion has a list of notes with an open note in it.
pub open spec fn discussion_is_unresolved(d: Json) -> bool {
    match json_array(json_get(d, "notes"@)) {
        Some(notes) => exists|i: int| 0 <= i < notes.len() && note_is_open(#[trigger] notes[i]),
        None => false,
    }
}

/// How many of the discussions are unresolved.
pub open spec fn unresolved_in(ds: Seq<Json>) -> nat
    decreases ds.len(),
{
    if ds.len() == 0 {
        0
    } else {
        unresolved_in(ds.drop_last()) + if discussion_is_unresolved(ds.last()) {
            1nat
        } else {
            0nat
        }
    }
}

/// How many discussions of the review are unresolved.
pub open spec fn unresolved_count(ctx: Json) -> nat {
    match json_array(json_get(ctx, "discussions"@)) {
        Some(ds) => unresolved_in(ds),
        None => 0,
    }
}

/// The `approved` flag of the approvals section, when it is a boolean.
pub open spec fn approval_state(ctx: Json) -> Option<bool> {
    match json_get(ctx, "approvals"@) {
        Some(a) => json_bool(json_get(a, "approved"@)),
        None => None,
    }
}

/// A compact account of what a review returned.
#[derive(Debug, Clone, Copy, PartialEq, Eq, Structural)]
pub struct ReviewSummary {
    pub files_changed_returned: usize,
    pub commits_returned: usize,
    pub discussions_returned: usize,
    pub unresolved_discussions: usize,
    pub related_issues_returned: usize,
    pub pipelines_returned: usize,
    pub approved: Option<bool>,
}

/// Whether `s` is the summary of the review context `ctx`.
pub open spec fn summarizes(s: ReviewSummary, ctx: Json) -> bool {
    &&& s.files_changed_returned == returned_count(ctx, "diffs"@)
    &&& s.commits_returned == returned_count(ctx, "commits"@)
    &&& s.discussions_returned == returned_count(ctx, "discussions"@)
    &&& s.unresolved_discussions == unresolved_count(ctx)
    &&& s.related_issues_returned == returned_count(ctx, "related_issues"@)
    &&& s.pipelines_returned == returned_count(ctx, "pipelines"@)
    &&& s.approved == approval_state(ctx)
}

fn count_of(ctx: &Json, name: &str) -> (n: usize)
    ensures
        n == returned_count(*ctx, name@),
{
    match get_array(ctx, name) {
        Some(items) => items.len(),
        None => 0,
    }
}

fn is_open_note(note: &Json) -> (b: bool)
    ensures
        b == note_is_open(*note),
{
    let resolvable = get_bool(note, "resolvable");
    let resolved = get_bool(note, "resolved");
    let a = match resolvable {
        Some(x) => x,
        None => false,
    };
    let c = match resolved {
        Some(x) => x,
        None => false,
    };
    a && !c
}

fn is_unresolved(d: &Json) -> (b: bool)
    ensures
        b == discussion_is_unresolved(*d),
{
    match get_array(d, "notes") {
        Some(notes) => {
            let mut i: usize = 0;
            while i < notes.len()
                invariant
                    json_array(json_get(*d, "notes"@)) == Some(notes@),
                    i <= notes@.len(),
                    forall|j: int| 0 <= j < i ==> !note_is_open(#[trigger] notes@[j]),
                decreases notes@.len() - i,
            {
                if is_open_note(&notes[i]) {
                    proof {
                        let ns = json_array(json_get(*d, "notes"@))->Some_0;
                        assert(ns == notes@);
                        assert(note_is_open(ns[i as int]));
                        assert(exists|k: int| 0 <= k < ns.len() && note_is_open(#[trigger] ns[k]));
                    }
                    return true;
                }
                i = i + 1;
            }
            false
        },
        None => false,
    }
}

proof fn lemma_unresolved_bound(ds: Seq<Json>)
    ensures
        unresolved_in(ds) <= ds.len(),
    decreases ds.len(),
{
    if ds.len() > 0 {
        lemma_unresolved_bound(ds.drop_last());
    }
}

fn unresolved_of(ctx: &Json) -> (n: usize)
    ensures
        n == unresolved_count(*ctx),
{
    match get_array(ctx, "discussions") {
        Some(ds) => {
            let mut n: usize = 0;
            let mut i: usize = 0;
            while i < ds.len()
                invariant
                    i <= ds@.len(),
                    n == unresolved_in(ds@.subrange(0, i as int)),
                decreases ds@.len() - i,
            {
                proof {
                    lemma_unresolved_bound(ds@.subrange(0, i as int));
                    assert(ds@.subrange(0, i + 1).drop_last() =~= ds@.subrange(0, i as int));
                }
                if is_unresolved(&ds[i]) {
                    n = n + 1;
                }
                i = i + 1;
            }
            assert(ds@.subrange(0, ds@.len() as int) =~= ds@);
            n
        },
        None => 0,
    }
}

fn approval_of(ctx: &Json) -> (a: Option<bool>)
    ensures
        a == approval_state(*ctx),
{
    match get(ctx, "approvals") {
        Some(v) => get_bool(v, "approved"),
        None => None,
    }
}

/// Summarizes a review context: how many items each section returned, how
/// many discussions are unresolved, and whether the merge request is
/// approved.
pub fn review_summary(context: &Json) -> (s: ReviewSummary)
    ensures
        summarizes(s, *context),
{
    ReviewSummary {
        files_changed_returned: count_of(context, "diffs"),
        commits_returned: count_of(context, "commits"),
        discussions_returned: count_of(context, "discussions"),
        unresolved_discussions: unresolved_of(context),
        related_issues_returned: count_of(context, "related_issues"),
        pipelines_returned: count_of(context, "pipelines"),
        approved: approval_of(context),
    }
}

/// What came of one optional section of a review.
#[derive(Debug)]
pub enum SectionOutcome {
    /// The section was switched off.
    Skipped,
    /// The section was fetched; it carries the answer.
    Fetched(Json),
    /// Fetching the section failed; it carries the error's text.
    Failed(String),
}

/// The outcomes of the optional sections of a review.
#[derive(Debug)]
pub struct ReviewSections {
    pub diffs: SectionOutcome,
    pub commits: SectionOutcome,
    pub discussions: SectionOutcome,
    pub related_issues: SectionOutcome,
    pub pipelines: SectionOutcome,
    pub approvals: SectionOutcome,
}

/// A review put together: the members of the context object (the merge
/// request and each fetched section), its summary, and the warnings of failed
/// sections.
#[derive(Debug)]
pub struct ReviewContext {
    /// `merge_request` and each fetched section, in order.
    pub members: Vec<(String, Json)>,
    /// The summary of the context object.
    pub summary: ReviewSummary,
    /// Whether some section failed.
    pub partial: bool,
    /// One `<section>: <error>` line per failed section, in section order.
    pub warnings: Vec<String>,
}

/// The name a section is kept under, when it was fetched.
pub open spec fn kept_name(name: Seq<char>, out: SectionOutcome) -> Seq<Seq<char>> {
    match out {
        SectionOutcome::Fetched(_) => seq![name],
        _ => Seq::empty(),
    }
}

/// The answer a section contributes, when it was fetched.
pub open spec fn kept_value(out: SectionOutcome) -> Seq<Json> {
    match out {
        SectionOutcome::Fetched(j) => seq![j],
        _ => Seq::empty(),
    }
}

/// The warning a section contributes, when it failed.
pub open spec fn warning_for(name: Seq<char>, out: SectionOutcome) -> Seq<Seq<char>> {
    match out {
        SectionOutcome::Failed(e) => seq![name + ": "@ + e@],
        _ => Seq::empty(),
    }
}

/// The names of the optional sections, in order.
pub open spec fn section_names() -> Seq<Seq<char>> {
    seq!["diffs"@, "commits"@, "discussions"@, "related_issues"@, "pipelines"@, "approvals"@]
}

/// The outcomes of the optional sections, in the order of
/// [`section_names`].
pub open spec fn section_outcomes(s: ReviewSections) -> Seq<SectionOutcome> {
    seq![s.diffs, s.commits, s.discussions, s.related_issues, s.pipelines, s.approvals]
}

/// The names that the sections `ns` with outcomes `os` are kept under.
pub open spec fn kept_names(ns: Seq<Seq<char>>, os: Seq<SectionOutcome>) -> Seq<Seq<char>>
    decreases os.len(),
{
    if os.len() == 0 || ns.len() == 0 {
        Seq::empty()
    } else {
        kept_names(ns.drop_last(), os.drop_last()) + kept_name(ns.last(), os.last())
    }
}

/// The answers that the sections with outcomes `os` contribute.
pub open spec fn kept_values(os: Seq<SectionOutcome>) -> Seq<Json>
    decreases os.len(),
{
    if os.len() == 0 {
        Seq::empty()
    } else {
        kept_values(os.drop_last()) + kept_value(os.last())
    }
}

/// The warnings that the sections `ns` with outcomes `os` contribute.
pub open spec fn warnings_of(ns: Seq<Seq<char>>, os: Seq<SectionOutcome>) -> Seq<Seq<char>>
    decreases os.len(),
{
    if os.len() == 0 || ns.len() == 0 {
        Seq::empty()
    } else {
        warnings_of(ns.drop_last(), os.drop_last()) + warning_for(ns.last(), os.last())
    }
}

/// The names of the context's members, in order.
pub open spec fn context_names(s: ReviewSections) -> Seq<Seq<char>> {
    seq!["merge_request"@] + kept_names(section_names(), section_outcomes(s))
}

/// The values of the context's members, in order.
pub open spec fn context_values(merge_request: Json, s: ReviewSections) -> Seq<Json> {
    seq![merge_request] + kept_values(section_outcomes(s))
}

/// The warnings of a review, in section order.
pub open spec fn review_warnings(s: ReviewSections) -> Seq<Seq<char>> {
    warnings_of(section_names(), section_outcomes(s))
}

/// Taking one more section into account adds what it contributes.
proof fn lemma_kept_step(ns: Seq<Seq<char>>, os: Seq<SectionOutcome>, i: int)
    requires
        ns.len() == os.len(),
        0 <= i < ns.len(),
    ensures
        kept_names(ns.take(i + 1), os.take(i + 1)) == kept_names(ns.take(i), os.take(i))
            + kept_name(ns[i], os[i]),
        kept_values(os.take(i + 1)) == kept_values(os.take(i)) + kept_value(os[i]),
        warnings_of(ns.take(i + 1), os.take(i + 1)) == warnings_of(ns.take(i), os.take(i))
            + warning_for(ns[i], os[i]),
{
    assert(ns.take(i + 1).drop_last() =~= ns.take(i));
    assert(os.take(i + 1).drop_last() =~= os.take(i));
}

/// The sections, taken in order, keep and warn as each one does.
proof fn lemma_sections_in_order(s: ReviewSections)
    ensures
        kept_names(section_names(), section_outcomes(s)) == Seq::<Seq<char>>::empty() + kept_name(
            "diffs"@,
            s.diffs,
        ) + kept_name("commits"@, s.commits) + kept_name("discussions"@, s.discussions)
            + kept_name("related_issues"@, s.related_issues) + kept_name("pipelines"@, s.pipelines)
            + kept_name("approvals"@, s.approvals),
        kept_values(section_outcomes(s)) == Seq::<Json>::empty() + kept_value(s.diffs) + kept_value(
            s.commits,
        ) + kept_value(s.discussions) + kept_value(s.related_issues) + kept_value(s.pipelines)
            + kept_value(s.approvals),
        warnings_of(section_names(), section_outcomes(s)) == Seq::<Seq<char>>::empty()
            + warning_for("diffs"@, s.diffs) + warning_for("commits"@, s.commits) + warning_for(
            "discussions"@,
            s.discussions,
        ) + warning_for("related_issues"@, s.related_issues) + warning_for(
            "pipelines"@,
            s.pipelines,
        ) + warning_for("approvals"@, s.approvals),
{
    let ns = section_names();
    let os = section_outcomes(s);
    assert(ns.take(0) =~= Seq::<Seq<char>>::empty());
    assert(os.take(0) =~= Seq::<SectionOutcome>::empty());
    lemma_kept_step(ns, os, 0);
    lemma_kept_step(ns, os, 1);
    lemma_kept_step(ns, os, 2);
    lemma_kept_step(ns, os, 3);
    lemma_kept_step(ns, os, 4);
    lemma_kept_step(ns, os, 5);
    assert(ns.take(6) =~= ns);
    assert(os.take(6) =~= os);
}

/// Adding six parts one by one onto `x` is adding their concatenation.
proof fn lemma_regroup<A>(x: Seq<A>, a: Seq<A>, b: Seq<A>, c: Seq<A>, d: Seq<A>, e: Seq<A>, f: Seq<A>)
    ensures
        x + (Seq::<A>::empty() + a + b + c + d + e + f) == x + a + b + c + d + e + f,
{
    assert(x + (Seq::<A>::empty() + a + b + c + d + e + f) =~= x + a + b + c + d + e + f);
}

/// Whether some section failed.
pub open spec fn some_section_failed(s: ReviewSections) -> bool {
    ||| s.diffs is Failed
    ||| s.commits is Failed
    ||| s.discussions is Failed
    ||| s.related_issues is Failed
    ||| s.pipelines is Failed
    ||| s.approvals is Failed
}

/// The warnings' text, as characters.
pub open spec fn warning_views(ws: Seq<String>) -> Seq<Seq<char>> {
    ws.map_values(|w: String| w@)
}

fn take_section(
    members: &mut Vec<(String, Json)>,
    warnings: &mut Vec<String>,
    name: &str,
    outcome: SectionOutcome,
)
    ensures
        member_names(final(members)@) == member_names(old(members)@) + kept_name(name@, outcome),
        member_values(final(members)@) == member_values(old(members)@) + kept_value(outcome),
        warning_views(final(warnings)@) == warning_views(old(warnings)@) + warning_for(
            name@,
            outcome,
        ),
{
    let ghost out = outcome;
    let ghost names0 = member_names(members@);
    let ghost values0 = member_values(members@);
    let ghost warnings0 = warning_views(warnings@);
    match outcome {
        SectionOutcome::Skipped => {},
        SectionOutcome::Fetched(j) => {
            members.push((owned(name), j));
        },
        SectionOutcome::Failed(e) => {
            let mut w = owned(name);
            push_str(&mut w, ": ");
            push_str(&mut w, e.as_str());
            warnings.push(w);
        },
    }
    assert(member_names(members@) =~= names0 + kept_name(name@, out));
    assert(member_values(members@) =~= values0 + kept_value(out));
    assert(warning_views(warnings@) =~= warnings0 + warning_for(name@, out));
}

/// Members and warnings gathered section by section are those of the
/// assembled review.
proof fn lemma_assembled(
    names: Seq<Seq<char>>,
    values: Seq<Json>,
    warnings: Seq<Seq<char>>,
    merge_request: Json,
    s: ReviewSections,
)
    requires
        names == seq!["merge_request"@] + kept_name("diffs"@, s.diffs) + kept_name("commits"@, s.commits)
            + kept_name("discussions"@, s.discussions) + kept_name("related_issues"@, s.related_issues)
            + kept_name("pipelines"@, s.pipelines) + kept_name("approvals"@, s.approvals),
        values == seq![merge_request] + kept_value(s.diffs) + kept_value(s.commits) + kept_value(
            s.discussions,
        ) + kept_value(s.related_issues) + kept_value(s.pipelines) + kept_value(s.approvals),
        warnings == Seq::<Seq<char>>::empty() + warning_for("diffs"@, s.diffs) + warning_for(
            "commits"@,
            s.commits,
        ) + warning_for("discussions"@, s.discussions) + warning_for(
            "related_issues"@,
            s.related_issues,
        ) + warning_for("pipelines"@, s.pipelines) + warning_for("approvals"@, s.approvals),
    ensures
        names == context_names(s),
        values == context_values(merge_request, s),
        warnings == review_warnings(s),
        warnings.len() > 0 <==> some_section_failed(s),
{
    lemma_sections_in_order(s);
    lemma_regroup(
        seq!["merge_request"@],
        kept_name("diffs"@, s.diffs),
        kept_name("commits"@, s.commits),
        kept_name("discussions"@, s.discussions),
        kept_name("related_issues"@, s.related_issues),
        kept_name("pipelines"@, s.pipelines),
        kept_name("approvals"@, s.approvals),
    );
    lemma_regroup(
        seq![merge_request],
        kept_value(s.diffs),
        kept_value(s.commits),
        kept_value(s.discussions),
        kept_value(s.related_issues),
        kept_value(s.pipelines),
        kept_value(s.approvals),
    );
}

/// Puts a review together from the merge request and the outcomes of its
/// sections: fetched sections join the merge request in the context,
/// failed ones become warnings, and the context is summarized.
#[verifier::spinoff_prover]
pub fn assemble_review(merge_request: Json, sections: ReviewSections) -> (r: ReviewContext)
    ensures
        member_names(r.members@) == context_names(sections),
        member_values(r.members@) == context_values(merge_request, sections),
        summarizes(r.summary, Json::Object(r.members)),
        warning_views(r.warnings@) == review_warnings(sections),
        r.partial == (r.warnings@.len() > 0),
        r.partial == some_section_failed(sections),
{
    let ghost secs = sections;
    let ghost mr = merge_request;
    let mut members: Vec<(String, Json)> = Vec::new();
    let mut warnings: Vec<String> = Vec::new();
    members.push((owned("merge_request"), merge_request));
    assert(member_names(members@) =~= seq!["merge_request"@]);
    assert(member_values(members@) =~= seq![mr]);
    assert(warning_views(warnings@) =~= Seq::<Seq<char>>::empty());
    take_section(&mut members, &mut warnings, "diffs", sections.diffs);
    take_section(&mut members, &mut warnings, "commits", sections.commits);
    take_section(&mut members, &mut warnings, "discussions", sections.discussions);
    take_section(&mut members, &mut warnings, "related_issues", sections.related_issues);
    take_section(&mut members, &mut warnings, "pipelines", sections.pipelines);
    take_section(&mut members, &mut warnings, "approvals", sections.approvals);
    proof {
        lemma_assembled(member_names(members@), member_values(members@), warning_views(warnings@), mr, secs);
    }
    let context = Json::Object(members);
    let summary = review_summary(&context);
    let members = match context {
        Json::Object(ms) => ms,
        _ => Vec::new(),
    };
    let partial = warnings.len() > 0;
    proof {
        assert(warning_views(warnings@).len() == warnings@.len());
    }
    ReviewContext { members, summary, partial, warnings }
}

/// Whether `j` is the number `n`, written in decimal.
pub open spec fn is_number(j: Json, n: nat) -> bool {
    j matches Json::Number(t) && t@ == decimal(n)
}

/// The names of the summary object's members, in order.
pub open spec fn summary_names() -> Seq<Seq<char>> {
    seq![
        "files_changed_returned"@,
        "commits_returned"@,
        "discussions_returned"@,
        "unresolved_discussions"@,
        "related_issues_returned"@,
        "pipelines_returned"@,
        "approved"@,
    ]
}

/// Whether `j` is the summary `s` written as a JSON object: the six counts
/// as numbers, and `approved` as a boolean or `null`.
pub open spec fn is_summary_json(j: Json, s: ReviewSummary) -> bool {
    j matches Json::Object(ms) && member_names(ms@) == summary_names() && {
        let vs = member_values(ms@);
        &&& is_number(vs[0], s.files_changed_returned as nat)
        &&& is_number(vs[1], s.commits_returned as nat)
        &&& is_number(vs[2], s.discussions_returned as nat)
        &&& is_number(vs[3], s.unresolved_discussions as nat)
        &&& is_number(vs[4], s.related_issues_returned as nat)
        &&& is_number(vs[5], s.pipelines_returned as nat)
        &&& vs[6] == match s.approved {
            Some(b) => Json::Bool(b),
            None => Json::Null,
        }
    }
}

/// Whether `j` is an array of the strings `ws`.
pub open spec fn is_string_array(j: Json, ws: Seq<Seq<char>>) -> bool {
    j matches Json::Array(items) && items@.len() == ws.len() && forall|i: int|
        0 <= i < ws.len() ==> (#[trigger] items@[i] matches Json::Str(t) && t@ == ws[i])
}

fn number(n: usize) -> (j: Json)
    ensures
        is_number(j, n as nat),
{
    Json::Number(decimal_string(n as u64))
}

fn push_json(members: &mut Vec<(String, Json)>, name: &str, value: Json)
    ensures
        member_names(final(members)@) == member_names(old(members)@).push(name@),
        member_values(final(members)@) == member_values(old(members)@).push(value),
{
    let ghost names0 = member_names(members@);
    let ghost values0 = member_values(members@);
    let ghost v = value;
    members.push((owned(name), value));
    assert(member_names(members@) =~= names0.push(name@));
    assert(member_values(members@) =~= values0.push(v));
}

impl ReviewSummary {
    /// The summary as a JSON object.
    pub fn to_json(&self) -> (j: Json)
        ensures
            is_summary_json(j, *self),
    {
        let mut ms: Vec<(String, Json)> = Vec::new();
        assert(member_names(ms@) =~= Seq::<Seq<char>>::empty());
        assert(member_values(ms@) =~= Seq::<Json>::empty());
        push_json(&mut ms, "files_changed_returned", number(self.files_changed_returned));
        push_json(&mut ms, "commits_returned", number(self.commits_returned));
        push_json(&mut ms, "discussions_returned", number(self.discussions_returned));
        push_json(&mut ms, "unresolved_discussions", number(self.unresolved_discussions));
        push_json(&mut ms, "related_issues_returned", number(self.related_issues_returned));
        push_json(&mut ms, "pipelines_returned", number(self.pipelines_returned));
        let approved = match self.approved {
            Some(b) => Json::Bool(b),
            None => Json::Null,
        };
        push_json(&mut ms, "approved", approved);
        assert(member_names(ms@) =~= summary_names());
        Json::Object(ms)
    }
}

impl ReviewContext {
    /// The review document: the context's members, then `summary`,
    /// `partial` and `warnings`.
    pub fn into_document(self) -> (doc: Json)
        ensures
            doc matches Json::Object(ms) && member_names(ms@) == member_names(self.members@)
                + seq!["summary"@, "partial"@, "warnings"@] && {
                let vs = member_values(ms@);
                let n = self.members@.len() as int;
                &&& vs.len() == n + 3
                &&& vs.subrange(0, n) == member_values(self.members@)
                &&& is_summary_json(vs[n], self.summary)
                &&& vs[n + 1] == Json::Bool(self.partial)
                &&& is_string_array(vs[n + 2], warning_views(self.warnings@))
            },
    {
        let ghost this = self;
        let mut items: Vec<Json> = Vec::new();
        let mut i: usize = 0;
        while i < self.warnings.len()
            invariant
                this.warnings == self.warnings,
                i <= self.warnings@.len(),
                items@.len() == i,
                forall|k: int|
                    0 <= k < i ==> (#[trigger] items@[k] matches Json::Str(t) && t@
                        == self.warnings@[k]@),
            decreases self.warnings@.len() - i,
        {
            items.push(Json::Str(self.warnings[i].clone()));
            i = i + 1;
        }
        let warnings = Json::Array(items);
        assert(is_string_array(warnings, warning_views(this.warnings@)));
        let summary = self.summary.to_json();
        let mut ms = self.members;
        let ghost names0 = member_names(ms@);
        let ghost values0 = member_values(ms@);
        push_json(&mut ms, "summary", summary);
        push_json(&mut ms, "partial", Json::Bool(self.partial));
        push_json(&mut ms, "warnings", warnings);
        assert(member_names(ms@) =~= names0 + seq!["summary"@, "partial"@, "warnings"@]);
        assert(member_values(ms@).subrange(0, values0.len() as int) =~= values0);
        Json::Object(ms)
    }
}

/// How many items a section's answer holds, as the summary counts them.
pub open spec fn outcome_count(out: SectionOutcome) -> nat {
    match out {
        SectionOutcome::Fetched(j) => match json_array(Some(j)) {
            Some(items) => items.len(),
            None => 0,
        },
        _ => 0,
    }
}

proof fn lemma_find_skip(ms: Seq<(String, Json)>, key: Seq<char>, i: int, k: int)
    requires
        0 <= i <= k <= ms.len(),
        forall|j: int| i <= j < k ==> ms[j].0@ != key,
    ensures
        crate::json::find_member(ms, key, i) == crate::json::find_member(ms, key, k),
    decreases k - i,
{
    if i < k {
        lemma_find_skip(ms, key, i + 1, k);
    }
}

/// What looking a section up finds: its answer, when it was fetched.
pub open spec fn fetched(out: SectionOutcome) -> Option<Json> {
    match out {
        SectionOutcome::Fetched(j) => Some(j),
        _ => None,
    }
}

/// Splitting the sections in two splits what they keep.
proof fn lemma_kept_split(
    a: Seq<Seq<char>>,
    b: Seq<SectionOutcome>,
    c: Seq<Seq<char>>,
    d: Seq<SectionOutcome>,
)
    requires
        a.len() == b.len(),
        c.len() == d.len(),
    ensures
        kept_names(a + c, b + d) == kept_names(a, b) + kept_names(c, d),
        kept_values(b + d) == kept_values(b) + kept_values(d),
    decreases c.len(),
{
    if c.len() == 0 {
        assert(a + c =~= a);
        assert(b + d =~= b);
        assert(kept_names(a, b) + kept_names(c, d) =~= kept_names(a, b));
        assert(kept_values(b) + kept_values(d) =~= kept_values(b));
    } else {
        lemma_kept_split(a, b, c.drop_last(), d.drop_last());
        assert((a + c).drop_last() =~= a + c.drop_last());
        assert((b + d).drop_last() =~= b + d.drop_last());
        assert((a + c).last() == c.last());
        assert((b + d).last() == d.last());
        assert(kept_names(a + c, b + d) =~= kept_names(a, b) + kept_names(c, d));
        assert(kept_values(b + d) =~= kept_values(b) + kept_values(d));
    }
}

/// Each kept name comes with one kept answer.
proof fn lemma_kept_lengths(ns: Seq<Seq<char>>, os: Seq<SectionOutcome>)
    requires
        ns.len() == os.len(),
    ensures
        kept_names(ns, os).len() == kept_values(os).len(),
    decreases os.len(),
{
    if os.len() > 0 {
        lemma_kept_lengths(ns.drop_last(), os.drop_last());
    }
}

/// A section is kept only under its own name.
proof fn lemma_kept_from(ns: Seq<Seq<char>>, os: Seq<SectionOutcome>, x: Seq<char>)
    requires
        ns.len() == os.len(),
        kept_names(ns, os).contains(x),
    ensures
        ns.contains(x),
    decreases os.len(),
{
    let all = kept_names(ns, os);
    let init = kept_names(ns.drop_last(), os.drop_last());
    let j = choose|j: int| 0 <= j < all.len() && all[j] == x;
    if j < init.len() {
        assert(init[j] == x);
        lemma_kept_from(ns.drop_last(), os.drop_last(), x);
        let m = choose|m: int| 0 <= m < ns.drop_last().len() && ns.drop_last()[m] == x;
        assert(ns[m] == x);
    } else {
        assert(kept_name(ns.last(), os.last())[j - init.len()] == x);
        assert(ns[ns.len() - 1] == x);
    }
}

/// The section names differ from each other and from `merge_request`.
proof fn lemma_section_names_distinct()
    ensures
        section_names().len() == 6,
        forall|i: int, j: int|
            0 <= i < 6 && 0 <= j < 6 && i != j ==> #[trigger] section_names()[i]
                != #[trigger] section_names()[j],
        forall|i: int| 0 <= i < 6 ==> #[trigger] section_names()[i] != "merge_request"@,
{
    reveal_strlit("merge_request");
    reveal_strlit("diffs");
    reveal_strlit("commits");
    reveal_strlit("discussions");
    reveal_strlit("related_issues");
    reveal_strlit("pipelines");
    reveal_strlit("approvals");
    let ns = section_names();
    assert(ns[0].len() == 5);
    assert(ns[1].len() == 7);
    assert(ns[2].len() == 11);
    assert(ns[3].len() == 14);
    assert(ns[4].len() == 9 && ns[4][0] == 'p');
    assert(ns[5].len() == 9 && ns[5][0] == 'a');
    assert("merge_request"@.len() == 13);
}

/// In an assembled review context, the name of the `k`-th section finds
/// that section's answer when it was fetched, and nothing otherwise.
proof fn lemma_lookup_kept(ms: Seq<(String, Json)>, merge_request: Json, s: ReviewSections, k: int)
    requires
        0 <= k < 6,
        member_names(ms) == context_names(s),
        member_values(ms) == context_values(merge_request, s),
    ensures
        crate::json::find_member(ms, section_names()[k], 0) == fetched(section_outcomes(s)[k]),
{
    let ns = section_names();
    let os = section_outcomes(s);
    let key = ns[k];
    lemma_section_names_distinct();
    lemma_kept_step(ns, os, k);
    lemma_kept_split(ns.take(k + 1), os.take(k + 1), ns.skip(k + 1), os.skip(k + 1));
    assert(ns.take(k + 1) + ns.skip(k + 1) =~= ns);
    assert(os.take(k + 1) + os.skip(k + 1) =~= os);
    lemma_kept_lengths(ns.take(k), os.take(k));
    let before = seq!["merge_request"@] + kept_names(ns.take(k), os.take(k));
    let after = kept_names(ns.skip(k + 1), os.skip(k + 1));
    let vbefore = seq![merge_request] + kept_values(os.take(k));
    let vafter = kept_values(os.skip(k + 1));
    if before.contains(key) {
        let j = choose|j: int| 0 <= j < before.len() && before[j] == key;
        if j > 0 {
            assert(kept_names(ns.take(k), os.take(k))[j - 1] == key);
            lemma_kept_from(ns.take(k), os.take(k), key);
            let first = ns.take(k);
            let m = choose|m: int| 0 <= m < first.len() && #[trigger] first[m] == key;
            assert(ns[m] == ns[k]);
        }
    }
    if after.contains(key) {
        lemma_kept_from(ns.skip(k + 1), os.skip(k + 1), key);
        let rest = ns.skip(k + 1);
        let m = choose|m: int| 0 <= m < rest.len() && #[trigger] rest[m] == key;
        assert(ns[k + 1 + m] == ns[k]);
    }
    assert(member_names(ms) =~= before + kept_name(key, os[k]) + after);
    assert(member_values(ms) =~= vbefore + kept_value(os[k]) + vafter);
    lemma_lookup_section(ms, key, os[k], before, after, vbefore, vafter);
}

/// Looking up a section's name in a context laid out as `before`, the
/// section, then `after`, where no other member has that name.
proof fn lemma_lookup_section(
    ms: Seq<(String, Json)>,
    key: Seq<char>,
    out: SectionOutcome,
    before: Seq<Seq<char>>,
    after: Seq<Seq<char>>,
    vbefore: Seq<Json>,
    vafter: Seq<Json>,
)
    requires
        member_names(ms) == before + kept_name(key, out) + after,
        member_values(ms) == vbefore + kept_value(out) + vafter,
        before.len() == vbefore.len(),
        !before.contains(key),
        !after.contains(key),
    ensures
        crate::json::find_member(ms, key, 0) == fetched(out),
{
    let names = member_names(ms);
    let values = member_values(ms);
    assert(names.len() == ms.len());
    assert(values.len() == ms.len());
    let b = before.len() as int;
    assert(b <= ms.len());
    assert forall|j: int| 0 <= j < b implies ms[j].0@ != key by {
        assert(names[j] == ms[j].0@);
        assert(names[j] == before[j]);
    }
    lemma_find_skip(ms, key, 0, b);
    match out {
        SectionOutcome::Fetched(jv) => {
            assert(names[b] == ms[b].0@);
            assert(names[b] == key);
            assert(values[b] == ms[b].1);
            assert(values[b] == jv);
        },
        _ => {
            assert forall|j: int| b <= j < ms.len() implies ms[j].0@ != key by {
                assert(names[j] == ms[j].0@);
                assert(names[j] == after[j - b]);
            }
            lemma_find_skip(ms, key, b, ms.len() as int);
        },
    }
}


/// In an assembled review, the merge request is kept under
/// `merge_request`, and each section's name finds its answer when it was
/// fetched and nothing otherwise.
pub proof fn law_review_lookup(merge_request: Json, sections: ReviewSections, ctx: Json)
    requires
        ctx matches Json::Object(ms) && member_names(ms@) == context_names(sections)
            && member_values(ms@) == context_values(merge_request, sections),
    ensures
        json_get(ctx, "merge_request"@) == Some(merge_request),
        json_get(ctx, "diffs"@) == fetched(sections.diffs),
        json_get(ctx, "commits"@) == fetched(sections.commits),
        json_get(ctx, "discussions"@) == fetched(sections.discussions),
        json_get(ctx, "related_issues"@) == fetched(sections.related_issues),
        json_get(ctx, "pipelines"@) == fetched(sections.pipelines),
        json_get(ctx, "approvals"@) == fetched(sections.approvals),
{
    let ms = ctx->Object_0@;
    lemma_section_names_distinct();
    assert(ms.len() == member_names(ms).len());
    assert(member_names(ms)[0] == ms[0].0@);
    assert(member_values(ms)[0] == ms[0].1);
    assert(member_names(ms)[0] == "merge_request"@);
    assert(member_values(ms)[0] == merge_request);
    lemma_lookup_kept(ms, merge_request, sections, 0);
    lemma_lookup_kept(ms, merge_request, sections, 1);
    lemma_lookup_kept(ms, merge_request, sections, 2);
    lemma_lookup_kept(ms, merge_request, sections, 3);
    lemma_lookup_kept(ms, merge_request, sections, 4);
    lemma_lookup_kept(ms, merge_request, sections, 5);
}

/// The summary of an assembled review counts exactly the items of each
/// fetched section (zero for sections switched off or failed), counts the
/// unresolved discussions of the fetched discussions, and reports the
/// approval state of the fetched approvals.
pub proof fn law_review_summary(merge_request: Json, sections: ReviewSections, ctx: Json, summary: ReviewSummary)
    requires
        ctx matches Json::Object(ms) && member_names(ms@) == context_names(sections)
            && member_values(ms@) == context_values(merge_request, sections),
        summarizes(summary, ctx),
    ensures
        summary.files_changed_returned == outcome_count(sections.diffs),
        summary.commits_returned == outcome_count(sections.commits),
        summary.discussions_returned == outcome_count(sections.discussions),
        summary.related_issues_returned == outcome_count(sections.related_issues),
        summary.pipelines_returned == outcome_count(sections.pipelines),
        summary.unresolved_discussions == match sections.discussions {
            SectionOutcome::Fetched(j) => match json_array(Some(j)) {
                Some(ds) => unresolved_in(ds),
                None => 0,
            },
            _ => 0,
        },
        summary.approved == match sections.approvals {
            SectionOutcome::Fetched(a) => json_bool(json_get(a, "approved"@)),
            _ => None,
        },
{
    law_review_lookup(merge_request, sections, ctx);
}

/// The member `key` of an object whose member `k` is the first one named
/// `key` is that member's value.
proof fn lemma_find_first(ms: Seq<(String, Json)>, key: Seq<char>, k: int)
    requires
        0 <= k < ms.len(),
        ms[k].0@ == key,
        forall|j: int| 0 <= j < k ==> ms[j].0@ != key,
    ensures
        crate::json::find_member(ms, key, 0) == Some(ms[k].1),
{
    lemma_find_skip(ms, key, 0, k);
}

/// The summary's JSON object holds each count under its name, written in
/// decimal: `unresolved_discussions` is the number of unresolved
/// discussions, whatever the number of discussions returned, and `approved`
/// is the approval state, or `null` when it is unknown.
pub proof fn law_summary_json_members(j: Json, s: ReviewSummary)
    requires
        is_summary_json(j, s),
    ensures
        json_get(j, "files_changed_returned"@) matches Some(Json::Number(t)) && t@ == decimal(
            s.files_changed_returned as nat,
        ),
        json_get(j, "commits_returned"@) matches Some(Json::Number(t)) && t@ == decimal(
            s.commits_returned as nat,
        ),
        json_get(j, "discussions_returned"@) matches Some(Json::Number(t)) && t@ == decimal(
            s.discussions_returned as nat,
        ),
        json_get(j, "unresolved_discussions"@) matches Some(Json::Number(t)) && t@ == decimal(
            s.unresolved_discussions as nat,
        ),
        json_get(j, "related_issues_returned"@) matches Some(Json::Number(t)) && t@ == decimal(
            s.related_issues_returned as nat,
        ),
        json_get(j, "pipelines_returned"@) matches Some(Json::Number(t)) && t@ == decimal(
            s.pipelines_returned as nat,
        ),
        json_get(j, "approved"@) == Some(
            match s.approved {
                Some(b) => Json::Bool(b),
                None => Json::Null,
            },
        ),
{
    reveal_strlit("files_changed_returned");
    reveal_strlit("commits_returned");
    reveal_strlit("discussions_returned");
    reveal_strlit("unresolved_discussions");
    reveal_strlit("related_issues_returned");
    reveal_strlit("pipelines_returned");
    reveal_strlit("approved");
    let ms = j->Object_0@;
    let names = member_names(ms);
    let values = member_values(ms);
    assert(names.len() == ms.len());
    assert(values.len() == ms.len());
    assert forall|i: int| 0 <= i < ms.len() implies #[trigger] ms[i].0@ == names[i] && ms[i].1
        == values[i] by {}
    let ns = summary_names();
    assert(ns[0].len() == 22 && ns[0][0] == 'f');
    assert(ns[1].len() == 16);
    assert(ns[2].len() == 20);
    assert(ns[3].len() == 22 && ns[3][0] == 'u');
    assert(ns[4].len() == 23);
    assert(ns[5].len() == 18);
    assert(ns[6].len() == 8);
    assert forall|k: int, i: int| 0 <= i < k < 7 implies #[trigger] ns[i] != #[trigger] ns[k] by {
        if ns[i] == ns[k] {
            assert(ns[i].len() == ns[k].len());
            if i == 0 && k == 3 {
                assert(ns[i][0] != ns[k][0]);
            }
        }
    }
    lemma_find_first(ms, ns[0], 0);
    lemma_find_first(ms, ns[1], 1);
    lemma_find_first(ms, ns[2], 2);
    lemma_find_first(ms, ns[3], 3);
    lemma_find_first(ms, ns[4], 4);
    lemma_find_first(ms, ns[5], 5);
    lemma_find_first(ms, ns[6], 6);
}

} // verus!

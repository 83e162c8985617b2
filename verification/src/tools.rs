//! The request each GitLab tool sends, built from the tool's parameters, or
//! the reason the call is turned down.

use crate::draft::{draft_title, merge_request_title, new_merge_request_title, set_draft_title};
use crate::query::{
    optional, optional_bool, optional_bool_pairs, optional_pairs, opt_view, page_query,
    pagination, pagination_outcome, push_param, query_view, Query,
};
use crate::request::{
    body_view, ids_view, invalid_params, nullable_bool_member, nullable_ids_member,
    nullable_text_member, optional_bool_member, optional_ids_member, optional_text_member, owned,
    push_nullable_bool, push_nullable_ids, push_nullable_text, push_optional_bool,
    push_optional_ids, push_optional_text, push_text, text_member, tool_error, write_disabled,
    ApiRequest, Body, FieldView, HttpMethod, Rejection, RejectionView, RequestView,
};
use crate::json::{get, json_get, Json};
use crate::segment::{encode_segment, segment_of};
use crate::text::{decimal, has_prefix, push_decimal, push_str};
use vstd::prelude::*;

verus! {

/// A tool call's outcome, with all text as characters.
pub open spec fn outcome_view(r: Result<ApiRequest, Rejection>) -> Result<RequestView, RejectionView> {
    match r {
        Ok(q) => Ok(q@),
        Err(e) => Err(e@),
    }
}

/// A `GET` of `path` with `query`.
pub open spec fn get_view(path: Seq<char>, query: Seq<(Seq<char>, Seq<char>)>) -> RequestView {
    RequestView { method: HttpMethod::Get, path, query, body: None }
}

/// A request with a JSON body and no query.
pub open spec fn body_request_view(
    method: HttpMethod,
    path: Seq<char>,
    body: Seq<(Seq<char>, FieldView)>,
) -> RequestView {
    RequestView { method, path, query: Seq::empty(), body: Some(body) }
}

/// A paginated `GET`: pagination comes first, then `extra`; invalid
/// pagination rejects the call.
pub open spec fn paged(
    page: Option<u32>,
    per_page: Option<u32>,
    path: Seq<char>,
    extra: Seq<(Seq<char>, Seq<char>)>,
) -> Result<RequestView, RejectionView> {
    match pagination_outcome(page, per_page) {
        Err(m) => Err(RejectionView::InvalidParams(m)),
        Ok((p, s)) => Ok(get_view(path, page_query(p, s) + extra)),
    }
}

/// A write: turned down while writes are off, otherwise the request.
pub open spec fn written(
    allow_write: bool,
    method: HttpMethod,
    path: Seq<char>,
    body: Seq<(Seq<char>, FieldView)>,
) -> Result<RequestView, RejectionView> {
    if !allow_write {
        Err(RejectionView::ToolError(crate::request::write_disabled_text()))
    } else {
        Ok(body_request_view(method, path, body))
    }
}

/// While writes are off, every write is answered with the same refusal,
/// whatever it would have sent; while they are on, it is sent as planned.
pub proof fn law_writes_follow_the_switch(
    method: HttpMethod,
    path: Seq<char>,
    body: Seq<(Seq<char>, FieldView)>,
)
    ensures
        written(false, method, path, body) == Err::<RequestView, RejectionView>(
            RejectionView::ToolError(crate::request::write_disabled_text()),
        ),
        written(true, method, path, body) == Ok::<RequestView, RejectionView>(
            body_request_view(method, path, body),
        ),
{
}

/// The path of a project's resource: `/projects/<project>` and `tail`.
pub open spec fn project_path_of(project: Seq<char>, tail: Seq<char>) -> Seq<char> {
    "/projects/"@ + segment_of(project) + tail
}

/// The path of an item of a project: `/projects/<project>`, `kind`, the
/// item's number and `tail`.
pub open spec fn project_item_path_of(
    project: Seq<char>,
    kind: Seq<char>,
    id: u64,
    tail: Seq<char>,
) -> Seq<char> {
    "/projects/"@ + segment_of(project) + kind + decimal(id as nat) + tail
}

/// The ordering by recent activity used by project listings.
pub open spec fn activity_order() -> Seq<(Seq<char>, Seq<char>)> {
    seq![("order_by"@, "last_activity_at"@), ("sort"@, "desc"@)]
}

/// Builds `/projects/<project><tail>`.
pub fn project_path(project: &str, tail: &str) -> (s: String)
    ensures
        s@ == project_path_of(project@, tail@),
{
    let mut s = owned("/projects/");
    let seg = encode_segment(project);
    push_str(&mut s, seg.as_str());
    push_str(&mut s, tail);
    s
}

/// Builds `/projects/<project><kind><id><tail>`.
pub fn project_item_path(project: &str, kind: &str, id: u64, tail: &str) -> (s: String)
    ensures
        s@ == project_item_path_of(project@, kind@, id, tail@),
{
    let mut s = project_path(project, kind);
    push_decimal(&mut s, id);
    push_str(&mut s, tail);
    s
}

/// A `GET` request.
pub fn get_request(path: String, query: Query) -> (r: ApiRequest)
    ensures
        r@ == get_view(path@, query_view(query)),
{
    ApiRequest { method: HttpMethod::Get, path, query, body: None }
}

/// A request with a JSON body, or the refusal while writes are off.
pub fn write_request(allow_write: bool, method: HttpMethod, path: String, body: Body) -> (r: Result<
    ApiRequest,
    Rejection,
>)
    ensures
        outcome_view(r) == written(allow_write, method, path@, body_view(body@)),
{
    if !allow_write {
        return Err(write_disabled());
    }
    let query: Query = Vec::new();
    assert(query_view(query) =~= Seq::<(Seq<char>, Seq<char>)>::empty());
    Ok(ApiRequest { method, path, query, body: Some(body) })
}

/// An empty query.
fn no_query() -> (q: Query)
    ensures
        query_view(q) == Seq::<(Seq<char>, Seq<char>)>::empty(),
{
    let q: Query = Vec::new();
    assert(query_view(q) =~= Seq::<(Seq<char>, Seq<char>)>::empty());
    q
}

/// An empty body.
fn no_body() -> (b: Body)
    ensures
        body_view(b@) == Seq::<(Seq<char>, FieldView)>::empty(),
{
    let b: Body = Vec::new();
    assert(body_view(b@) =~= Seq::<(Seq<char>, FieldView)>::empty());
    b
}

/// `get_current_user`: the authenticated user.
pub fn get_current_user() -> (r: ApiRequest)
    ensures
        r@ == get_view("/user"@, Seq::empty()),
{
    get_request(owned("/user"), no_query())
}

/// `list_projects`: projects visible to the user, most recently active
/// first.
pub fn list_projects(
    search: Option<String>,
    membership: Option<bool>,
    page: Option<u32>,
    per_page: Option<u32>,
) -> (r: Result<ApiRequest, Rejection>)
    ensures
        outcome_view(r) == paged(
            page,
            per_page,
            "/projects"@,
            optional_pairs("search"@, opt_view(search)) + optional_bool_pairs(
                "membership"@,
                membership,
            ) + activity_order(),
        ),
{
    let ghost extra = optional_pairs("search"@, opt_view(search))
        + optional_bool_pairs("membership"@, membership)
        + activity_order();
    let mut query = match pagination(page, per_page) {
        Ok(q) => q,
        Err(e) => {
            return Err(e);
        },
    };
    let ghost q0 = query_view(query);
    optional(&mut query, "search", search);
    optional_bool(&mut query, "membership", membership);
    push_param(&mut query, "order_by", owned("last_activity_at"));
    push_param(&mut query, "sort", owned("desc"));
    assert(query_view(query) =~= q0 + extra);
    Ok(get_request(owned("/projects"), query))
}

/// `list_group_projects`: projects of a group, most recently active first.
pub fn list_group_projects(
    group: &str,
    search: Option<String>,
    include_subgroups: Option<bool>,
    with_shared: Option<bool>,
    archived: Option<bool>,
    page: Option<u32>,
    per_page: Option<u32>,
) -> (r: Result<ApiRequest, Rejection>)
    ensures
        outcome_view(r) == paged(
            page,
            per_page,
            "/groups/"@ + segment_of(group@) + "/projects"@,
            optional_pairs("search"@, opt_view(search)) + optional_bool_pairs(
                "include_subgroups"@,
                include_subgroups,
            ) + optional_bool_pairs("with_shared"@, with_shared) + optional_bool_pairs(
                "archived"@,
                archived,
            ) + activity_order(),
        ),
{
    let ghost extra = optional_pairs("search"@, opt_view(search))
        + optional_bool_pairs("include_subgroups"@, include_subgroups)
        + optional_bool_pairs("with_shared"@, with_shared)
        + optional_bool_pairs("archived"@, archived)
        + activity_order();
    let mut query = match pagination(page, per_page) {
        Ok(q) => q,
        Err(e) => {
            return Err(e);
        },
    };
    let ghost q0 = query_view(query);
    optional(&mut query, "search", search);
    optional_bool(&mut query, "include_subgroups", include_subgroups);
    optional_bool(&mut query, "with_shared", with_shared);
    optional_bool(&mut query, "archived", archived);
    push_param(&mut query, "order_by", owned("last_activity_at"));
    push_param(&mut query, "sort", owned("desc"));
    let mut path = owned("/groups/");
    let seg = encode_segment(group);
    push_str(&mut path, seg.as_str());
    push_str(&mut path, "/projects");
    assert(query_view(query) =~= q0 + extra);
    Ok(get_request(path, query))
}

/// `get_project`: one project.
pub fn get_project(project: &str) -> (r: ApiRequest)
    ensures
        r@ == get_view(project_path_of(project@, ""@), Seq::empty()),
{
    get_request(project_path(project, ""), no_query())
}

/// `list_merge_requests`: a project's merge requests of every scope.
pub fn list_merge_requests(
    project: &str,
    state: Option<String>,
    page: Option<u32>,
    per_page: Option<u32>,
) -> (r: Result<ApiRequest, Rejection>)
    ensures
        outcome_view(r) == paged(
            page,
            per_page,
            project_path_of(project@, "/merge_requests"@),
            optional_pairs("state"@, opt_view(state)) + seq![("scope"@, "all"@)],
        ),
{
    let ghost extra = optional_pairs("state"@, opt_view(state)) + seq![("scope"@, "all"@)];
    let mut query = match pagination(page, per_page) {
        Ok(q) => q,
        Err(e) => {
            return Err(e);
        },
    };
    let ghost q0 = query_view(query);
    optional(&mut query, "state", state);
    push_param(&mut query, "scope", owned("all"));
    assert(query_view(query) =~= q0 + extra);
    Ok(get_request(project_path(project, "/merge_requests"), query))
}

/// `get_merge_request`: one merge request.
pub fn get_merge_request(project: &str, iid: u64) -> (r: ApiRequest)
    ensures
        r@ == get_view(project_item_path_of(project@, "/merge_requests/"@, iid, ""@), Seq::empty()),
{
    get_request(project_item_path(project, "/merge_requests/", iid, ""), no_query())
}

/// `list_merge_request_diffs`: up to a hundred file diffs of a merge
/// request.
pub fn list_merge_request_diffs(project: &str, iid: u64) -> (r: ApiRequest)
    ensures
        r@ == get_view(
            project_item_path_of(project@, "/merge_requests/"@, iid, "/diffs"@),
            seq![("per_page"@, "100"@)],
        ),
{
    let mut query = no_query();
    push_param(&mut query, "per_page", owned("100"));
    get_request(project_item_path(project, "/merge_requests/", iid, "/diffs"), query)
}

/// `list_issues`: a project's issues of every scope.
pub fn list_issues(
    project: &str,
    state: Option<String>,
    page: Option<u32>,
    per_page: Option<u32>,
) -> (r: Result<ApiRequest, Rejection>)
    ensures
        outcome_view(r) == paged(
            page,
            per_page,
            project_path_of(project@, "/issues"@),
            optional_pairs("state"@, opt_view(state)) + seq![("scope"@, "all"@)],
        ),
{
    let ghost extra = optional_pairs("state"@, opt_view(state)) + seq![("scope"@, "all"@)];
    let mut query = match pagination(page, per_page) {
        Ok(q) => q,
        Err(e) => {
            return Err(e);
        },
    };
    let ghost q0 = query_view(query);
    optional(&mut query, "state", state);
    push_param(&mut query, "scope", owned("all"));
    assert(query_view(query) =~= q0 + extra);
    Ok(get_request(project_path(project, "/issues"), query))
}

/// `get_issue`: one issue.
pub fn get_issue(project: &str, iid: u64) -> (r: ApiRequest)
    ensures
        r@ == get_view(project_item_path_of(project@, "/issues/"@, iid, ""@), Seq::empty()),
{
    get_request(project_item_path(project, "/issues/", iid, ""), no_query())
}

/// `list_branches`: a project's branches, filtered by text or by a regular
/// expression but not both.
pub fn list_branches(
    project: &str,
    search: Option<String>,
    regex: Option<String>,
    page: Option<u32>,
    per_page: Option<u32>,
) -> (r: Result<ApiRequest, Rejection>)
    ensures
        outcome_view(r) == if search.is_some() && regex.is_some() {
            Err(RejectionView::InvalidParams("search and regex cannot be used together"@))
        } else {
            paged(
                page,
                per_page,
                project_path_of(project@, "/repository/branches"@),
                optional_pairs("search"@, opt_view(search)) + optional_pairs(
                    "regex"@,
                    opt_view(regex),
                ),
            )
        },
{
    let ghost extra = optional_pairs("search"@, opt_view(search))
        + optional_pairs("regex"@, opt_view(regex));
    if search.is_some() && regex.is_some() {
        return Err(invalid_params("search and regex cannot be used together"));
    }
    let mut query = match pagination(page, per_page) {
        Ok(q) => q,
        Err(e) => {
            return Err(e);
        },
    };
    let ghost q0 = query_view(query);
    optional(&mut query, "search", search);
    optional(&mut query, "regex", regex);
    assert(query_view(query) =~= q0 + extra);
    Ok(get_request(project_path(project, "/repository/branches"), query))
}

/// `get_branch`: one branch.
pub fn get_branch(project: &str, branch: &str) -> (r: ApiRequest)
    ensures
        r@ == get_view(
            project_path_of(project@, "/repository/branches/"@) + segment_of(branch@),
            Seq::empty(),
        ),
{
    let mut path = project_path(project, "/repository/branches/");
    let seg = encode_segment(branch);
    push_str(&mut path, seg.as_str());
    get_request(path, no_query())
}

/// `compare_refs`: commits and diffs between two references.
pub fn compare_refs(project: &str, from: String, to: String, straight: Option<bool>) -> (r: ApiRequest)
    ensures
        r@ == get_view(
            project_path_of(project@, "/repository/compare"@),
            seq![("from"@, from@), ("to"@, to@)] + optional_bool_pairs("straight"@, straight),
        ),
{
    let ghost f = from@;
    let ghost t = to@;
    let mut query = no_query();
    push_param(&mut query, "from", from);
    push_param(&mut query, "to", to);
    optional_bool(&mut query, "straight", straight);
    assert(query_view(query) =~= seq![("from"@, f), ("to"@, t)] + optional_bool_pairs(
        "straight"@,
        straight,
    ));
    get_request(project_path(project, "/repository/compare"), query)
}

/// Whether a commit ordering is one GitLab knows: `default` or `topo`.
pub open spec fn known_order(order: Seq<char>) -> bool {
    order == "default"@ || order == "topo"@
}

/// Whether the commit ordering is absent or known.
fn order_accepted(order: &Option<String>) -> (b: bool)
    ensures
        b == (order.is_none() || known_order(order.unwrap()@)),
{
    match order {
        Some(o) => {
            let oc = crate::text::chars_of(o.as_str());
            crate::config::chars_equal(oc.as_slice(), "default") || crate::config::chars_equal(
                oc.as_slice(),
                "topo",
            )
        },
        None => true,
    }
}

/// `list_commits`: commits of a reference, optionally limited by path and
/// time.
#[verifier::rlimit(50)]
pub fn list_commits(
    project: &str,
    git_ref: Option<String>,
    path: Option<String>,
    since: Option<String>,
    until: Option<String>,
    first_parent: Option<bool>,
    with_stats: Option<bool>,
    order: Option<String>,
    page: Option<u32>,
    per_page: Option<u32>,
) -> (r: Result<ApiRequest, Rejection>)
    ensures
        outcome_view(r) == if order.is_some() && !known_order(order.unwrap()@) {
            Err(RejectionView::InvalidParams("order must be default or topo"@))
        } else {
            paged(
                page,
                per_page,
                project_path_of(project@, "/repository/commits"@),
                optional_pairs("ref_name"@, opt_view(git_ref)) + optional_pairs(
                    "path"@,
                    opt_view(path),
                ) + optional_pairs("since"@, opt_view(since)) + optional_pairs(
                    "until"@,
                    opt_view(until),
                ) + optional_pairs("order"@, opt_view(order)) + optional_bool_pairs(
                    "first_parent"@,
                    first_parent,
                ) + optional_bool_pairs("with_stats"@, with_stats),
            )
        },
{
    let ghost extra = optional_pairs("ref_name"@, opt_view(git_ref))
        + optional_pairs("path"@, opt_view(path))
        + optional_pairs("since"@, opt_view(since))
        + optional_pairs("until"@, opt_view(until))
        + optional_pairs("order"@, opt_view(order))
        + optional_bool_pairs("first_parent"@, first_parent)
        + optional_bool_pairs("with_stats"@, with_stats);
    if !order_accepted(&order) {
        return Err(invalid_params("order must be default or topo"));
    }
    let mut query = match pagination(page, per_page) {
        Ok(q) => q,
        Err(e) => {
            return Err(e);
        },
    };
    let ghost q0 = query_view(query);
    optional(&mut query, "ref_name", git_ref);
    optional(&mut query, "path", path);
    optional(&mut query, "since", since);
    optional(&mut query, "until", until);
    optional(&mut query, "order", order);
    optional_bool(&mut query, "first_parent", first_parent);
    optional_bool(&mut query, "with_stats", with_stats);
    assert(query_view(query) =~= q0 + extra);
    Ok(get_request(project_path(project, "/repository/commits"), query))
}

/// `get_commit`: one commit by SHA, branch or tag.
pub fn get_commit(project: &str, sha: &str, stats: Option<bool>) -> (r: ApiRequest)
    ensures
        r@ == get_view(
            project_path_of(project@, "/repository/commits/"@) + segment_of(sha@),
            optional_bool_pairs("stats"@, stats),
        ),
{
    let mut query = no_query();
    optional_bool(&mut query, "stats", stats);
    assert(query_view(query) =~= optional_bool_pairs("stats"@, stats));
    let mut path = project_path(project, "/repository/commits/");
    let seg = encode_segment(sha);
    push_str(&mut path, seg.as_str());
    get_request(path, query)
}

/// `list_repository_tree`: files and directories of a repository tree.
pub fn list_repository_tree(
    project: &str,
    path: Option<String>,
    git_ref: Option<String>,
    recursive: Option<bool>,
    page: Option<u32>,
    per_page: Option<u32>,
) -> (r: Result<ApiRequest, Rejection>)
    ensures
        outcome_view(r) == paged(
            page,
            per_page,
            project_path_of(project@, "/repository/tree"@),
            optional_pairs("path"@, opt_view(path)) + optional_pairs("ref"@, opt_view(git_ref))
                + optional_bool_pairs("recursive"@, recursive),
        ),
{
    let ghost extra = optional_pairs("path"@, opt_view(path))
        + optional_pairs("ref"@, opt_view(git_ref))
        + optional_bool_pairs("recursive"@, recursive);
    let mut query = match pagination(page, per_page) {
        Ok(q) => q,
        Err(e) => {
            return Err(e);
        },
    };
    let ghost q0 = query_view(query);
    optional(&mut query, "path", path);
    optional(&mut query, "ref", git_ref);
    optional_bool(&mut query, "recursive", recursive);
    assert(query_view(query) =~= q0 + extra);
    Ok(get_request(project_path(project, "/repository/tree"), query))
}

/// `get_repository_file`: one file at a reference.
pub fn get_repository_file(project: &str, file_path: &str, git_ref: String) -> (r: ApiRequest)
    ensures
        r@ == get_view(
            project_path_of(project@, "/repository/files/"@) + segment_of(file_path@),
            seq![("ref"@, git_ref@)],
        ),
{
    let ghost g = git_ref@;
    let mut query = no_query();
    push_param(&mut query, "ref", git_ref);
    let mut path = project_path(project, "/repository/files/");
    let seg = encode_segment(file_path);
    push_str(&mut path, seg.as_str());
    assert(query_view(query) =~= seq![("ref"@, g)]);
    get_request(path, query)
}

/// `list_pipelines`: a project's pipelines.
pub fn list_pipelines(
    project: &str,
    git_ref: Option<String>,
    status: Option<String>,
    page: Option<u32>,
    per_page: Option<u32>,
) -> (r: Result<ApiRequest, Rejection>)
    ensures
        outcome_view(r) == paged(
            page,
            per_page,
            project_path_of(project@, "/pipelines"@),
            optional_pairs("ref"@, opt_view(git_ref)) + optional_pairs("status"@, opt_view(status)),
        ),
{
    let ghost extra = optional_pairs("ref"@, opt_view(git_ref))
        + optional_pairs("status"@, opt_view(status));
    let mut query = match pagination(page, per_page) {
        Ok(q) => q,
        Err(e) => {
            return Err(e);
        },
    };
    let ghost q0 = query_view(query);
    optional(&mut query, "ref", git_ref);
    optional(&mut query, "status", status);
    assert(query_view(query) =~= q0 + extra);
    Ok(get_request(project_path(project, "/pipelines"), query))
}

/// `get_pipeline`: one pipeline.
pub fn get_pipeline(project: &str, pipeline_id: u64) -> (r: ApiRequest)
    ensures
        r@ == get_view(project_item_path_of(project@, "/pipelines/"@, pipeline_id, ""@), Seq::empty()),
{
    get_request(project_item_path(project, "/pipelines/", pipeline_id, ""), no_query())
}

/// `list_pipeline_jobs`: the jobs of a pipeline.
pub fn list_pipeline_jobs(
    project: &str,
    pipeline_id: u64,
    page: Option<u32>,
    per_page: Option<u32>,
) -> (r: Result<ApiRequest, Rejection>)
    ensures
        outcome_view(r) == paged(
            page,
            per_page,
            project_item_path_of(project@, "/pipelines/"@, pipeline_id, "/jobs"@),
            Seq::empty(),
        ),
{
    let query = match pagination(page, per_page) {
        Ok(q) => q,
        Err(e) => {
            return Err(e);
        },
    };
    assert(query_view(query) + Seq::<(Seq<char>, Seq<char>)>::empty() =~= query_view(query));
    Ok(get_request(project_item_path(project, "/pipelines/", pipeline_id, "/jobs"), query))
}

/// `get_job_trace`: the log of a CI job.
pub fn get_job_trace(project: &str, job_id: u64) -> (r: ApiRequest)
    ensures
        r@ == get_view(project_item_path_of(project@, "/jobs/"@, job_id, "/trace"@), Seq::empty()),
{
    get_request(project_item_path(project, "/jobs/", job_id, "/trace"), no_query())
}

/// `create_branch`: a new branch from an existing reference.
pub fn create_branch(allow_write: bool, project: &str, branch: String, git_ref: String) -> (r: Result<
    ApiRequest,
    Rejection,
>)
    ensures
        outcome_view(r) == written(
            allow_write,
            HttpMethod::Post,
            project_path_of(project@, "/repository/branches"@),
            text_member("branch"@, branch@) + text_member("ref"@, git_ref@),
        ),
{
    let mut body = no_body();
    push_text(&mut body, "branch", branch);
    push_text(&mut body, "ref", git_ref);
    write_request(allow_write, HttpMethod::Post, project_path(project, "/repository/branches"), body)
}

/// `create_tag`: a lightweight tag, or an annotated one when a message is
/// given.
pub fn create_tag(
    allow_write: bool,
    project: &str,
    tag_name: String,
    git_ref: String,
    message: Option<String>,
) -> (r: Result<ApiRequest, Rejection>)
    ensures
        outcome_view(r) == written(
            allow_write,
            HttpMethod::Post,
            project_path_of(project@, "/repository/tags"@),
            text_member("tag_name"@, tag_name@) + text_member("ref"@, git_ref@)
                + optional_text_member("message"@, opt_view(message)),
        ),
{
    let mut body = no_body();
    push_text(&mut body, "tag_name", tag_name);
    push_text(&mut body, "ref", git_ref);
    push_optional_text(&mut body, "message", message);
    write_request(allow_write, HttpMethod::Post, project_path(project, "/repository/tags"), body)
}

/// `create_issue`: a new issue; absent fields are sent as `null`.
pub fn create_issue(
    allow_write: bool,
    project: &str,
    title: String,
    description: Option<String>,
    labels: Option<String>,
    assignee_ids: Option<Vec<u64>>,
) -> (r: Result<ApiRequest, Rejection>)
    ensures
        outcome_view(r) == written(
            allow_write,
            HttpMethod::Post,
            project_path_of(project@, "/issues"@),
            text_member("title"@, title@) + nullable_text_member(
                "description"@,
                opt_view(description),
            ) + nullable_text_member("labels"@, opt_view(labels)) + nullable_ids_member(
                "assignee_ids"@,
                ids_view(assignee_ids),
            ),
        ),
{
    let mut body = no_body();
    push_text(&mut body, "title", title);
    push_nullable_text(&mut body, "description", description);
    push_nullable_text(&mut body, "labels", labels);
    push_nullable_ids(&mut body, "assignee_ids", assignee_ids);
    write_request(allow_write, HttpMethod::Post, project_path(project, "/issues"), body)
}

/// `create_merge_request`: a new merge request, titled as a draft when
/// asked; absent fields are sent as `null`.
pub fn create_merge_request(
    allow_write: bool,
    project: &str,
    source_branch: String,
    target_branch: String,
    title: String,
    description: Option<String>,
    draft: Option<bool>,
    squash: Option<bool>,
    remove_source_branch: Option<bool>,
) -> (r: Result<ApiRequest, Rejection>)
    ensures
        outcome_view(r) == written(
            allow_write,
            HttpMethod::Post,
            project_path_of(project@, "/merge_requests"@),
            text_member("source_branch"@, source_branch@) + text_member(
                "target_branch"@,
                target_branch@,
            ) + text_member("title"@, new_merge_request_title(title@, draft))
                + nullable_text_member("description"@, opt_view(description))
                + nullable_bool_member("squash"@, squash) + nullable_bool_member(
                "remove_source_branch"@,
                remove_source_branch,
            ),
        ),
{
    let title = merge_request_title(title, draft);
    let mut body = no_body();
    push_text(&mut body, "source_branch", source_branch);
    push_text(&mut body, "target_branch", target_branch);
    push_text(&mut body, "title", title);
    push_nullable_text(&mut body, "description", description);
    push_nullable_bool(&mut body, "squash", squash);
    push_nullable_bool(&mut body, "remove_source_branch", remove_source_branch);
    write_request(allow_write, HttpMethod::Post, project_path(project, "/merge_requests"), body)
}

/// `add_issue_note`: a comment on an issue.
pub fn add_issue_note(allow_write: bool, project: &str, iid: u64, note: String) -> (r: Result<
    ApiRequest,
    Rejection,
>)
    ensures
        outcome_view(r) == written(
            allow_write,
            HttpMethod::Post,
            project_item_path_of(project@, "/issues/"@, iid, "/notes"@),
            text_member("body"@, note@),
        ),
{
    let mut body = no_body();
    push_text(&mut body, "body", note);
    write_request(
        allow_write,
        HttpMethod::Post,
        project_item_path(project, "/issues/", iid, "/notes"),
        body,
    )
}

/// `add_merge_request_note`: a general comment on a merge request.
pub fn add_merge_request_note(allow_write: bool, project: &str, iid: u64, note: String) -> (r: Result<
    ApiRequest,
    Rejection,
>)
    ensures
        outcome_view(r) == written(
            allow_write,
            HttpMethod::Post,
            project_item_path_of(project@, "/merge_requests/"@, iid, "/notes"@),
            text_member("body"@, note@),
        ),
{
    let mut body = no_body();
    push_text(&mut body, "body", note);
    write_request(
        allow_write,
        HttpMethod::Post,
        project_item_path(project, "/merge_requests/", iid, "/notes"),
        body,
    )
}

/// The message given when an update names no field to change.
pub open spec fn nothing_to_update_text() -> Seq<char> {
    "at least one of title, description, draft, reviewer_ids, assignee_ids, squash, or remove_source_branch must be provided"@
}

/// The message given when the current title cannot be found.
pub open spec fn missing_title_text() -> Seq<char> {
    "GitLab merge request response is missing title"@
}

/// The `title` of a merge request document, when it is a string.
pub open spec fn title_in(doc: Json) -> Option<Seq<char>> {
    match json_get(doc, "title"@) {
        Some(Json::Str(t)) => Some(t@),
        _ => None,
    }
}

/// An accepted `update_merge_request` call. When it marks or unmarks a draft
/// without a new title, the current title is fetched first.
#[derive(Debug)]
pub struct MergeRequestUpdate {
    /// The merge request's path.
    pub path: String,
    /// The new title, if any.
    pub title: Option<String>,
    /// The new description, if any.
    pub description: Option<String>,
    /// Whether to mark (`true`) or unmark (`false`) the draft state.
    pub draft: Option<bool>,
    /// The users asked to examine the change, if any; empty clears them.
    pub reviewer_ids: Option<Vec<u64>>,
    /// The new assignees, if any; empty clears them.
    pub assignee_ids: Option<Vec<u64>>,
    /// The squash option, if any.
    pub squash: Option<bool>,
    /// The source branch removal option, if any.
    pub remove_source_branch: Option<bool>,
}

impl MergeRequestUpdate {
    /// Whether the current title must be fetched before the update is sent.
    pub open spec fn needs_current_title(&self) -> bool {
        self.draft.is_some() && self.title.is_none()
    }

    /// Whether the current title must be fetched before the update is sent.
    pub fn fetches_current_title(&self) -> (b: bool)
        ensures
            b == self.needs_current_title(),
    {
        self.draft.is_some() && self.title.is_none()
    }

    /// The request that fetches the merge request for its current title.
    pub fn current_title_request(&self) -> (r: ApiRequest)
        ensures
            r@ == get_view(self.path@, Seq::empty()),
    {
        get_request(self.path.clone(), no_query())
    }

    /// The title that is sent, given the fetched current title when one was
    /// needed, or why the update is abandoned.
    pub open spec fn title_outcome(
        &self,
        current: Option<Result<Option<Seq<char>>, Seq<char>>>,
    ) -> Result<Option<Seq<char>>, RejectionView> {
        match self.draft {
            None => Ok(opt_view(self.title)),
            Some(d) => match self.title {
                Some(t) => Ok(Some(draft_title(t@, d))),
                None => match current {
                    Some(Ok(Some(t))) => Ok(Some(draft_title(t, d))),
                    Some(Ok(None)) => Err(RejectionView::ToolError(missing_title_text())),
                    Some(Err(e)) => Err(RejectionView::ToolError(e)),
                    None => Err(RejectionView::ToolError(missing_title_text())),
                },
            },
        }
    }

    /// The body sent with the given final title: only the given fields.
    pub open spec fn body_with(&self, title: Option<Seq<char>>) -> Seq<(Seq<char>, FieldView)> {
        optional_text_member("title"@, title) + optional_text_member(
            "description"@,
            opt_view(self.description),
        ) + optional_ids_member("reviewer_ids"@, ids_view(self.reviewer_ids)) + optional_ids_member(
            "assignee_ids"@,
            ids_view(self.assignee_ids),
        ) + optional_bool_member("squash"@, self.squash) + optional_bool_member(
            "remove_source_branch"@,
            self.remove_source_branch,
        )
    }

    /// Finishes the update: `current` is what fetching the merge request
    /// gave (its document, or the fetch's error text) and is given exactly
    /// when the current title was needed.
    pub fn finish(self, current: Option<Result<Json, String>>) -> (r: Result<
        ApiRequest,
        Rejection,
    >)
        requires
            self.needs_current_title() == current.is_some(),
        ensures
            ({
                let cv = match current {
                    Some(Ok(doc)) => Some(Ok(title_in(doc))),
                    Some(Err(e)) => Some(Err(e@)),
                    None => None,
                };
                match self.title_outcome(cv) {
                    Err(e) => outcome_view(r) == Err::<RequestView, RejectionView>(e),
                    Ok(t) => outcome_view(r) == Ok::<RequestView, RejectionView>(
                        body_request_view(HttpMethod::Put, self.path@, self.body_with(t)),
                    ),
                }
            }),
    {
        let ghost this = self;
        let title: Option<String> = match self.draft {
            None => self.title,
            Some(d) => match self.title {
                Some(t) => Some(set_draft_title(t.as_str(), d)),
                None => match current {
                    Some(Ok(doc)) => match get(&doc, "title") {
                        Some(Json::Str(t)) => Some(set_draft_title(t.as_str(), d)),
                        _ => {
                            return Err(tool_error("GitLab merge request response is missing title"));
                        },
                    },
                    Some(Err(e)) => {
                        return Err(Rejection::ToolError(e));
                    },
                    None => {
                        return Err(tool_error("GitLab merge request response is missing title"));
                    },
                },
            },
        };
        let ghost tv = opt_view(title);
        let mut body = no_body();
        push_optional_text(&mut body, "title", title);
        push_optional_text(&mut body, "description", self.description);
        push_optional_ids(&mut body, "reviewer_ids", self.reviewer_ids);
        push_optional_ids(&mut body, "assignee_ids", self.assignee_ids);
        push_optional_bool(&mut body, "squash", self.squash);
        push_optional_bool(&mut body, "remove_source_branch", self.remove_source_branch);
        assert(body_view(body@) =~= this.body_with(tv));
        let query = no_query();
        Ok(ApiRequest { method: HttpMethod::Put, path: self.path, query, body: Some(body) })
    }
}

/// `update_merge_request`: checks that writes are on and that some field is
/// to change, then prepares the update.
pub fn update_merge_request(
    allow_write: bool,
    project: &str,
    iid: u64,
    title: Option<String>,
    description: Option<String>,
    draft: Option<bool>,
    reviewer_ids: Option<Vec<u64>>,
    assignee_ids: Option<Vec<u64>>,
    squash: Option<bool>,
    remove_source_branch: Option<bool>,
) -> (r: Result<MergeRequestUpdate, Rejection>)
    ensures
        !allow_write ==> (r matches Err(e) && e@ == RejectionView::ToolError(
            crate::request::write_disabled_text(),
        )),
        allow_write && title.is_none() && description.is_none() && draft.is_none()
            && reviewer_ids.is_none() && assignee_ids.is_none() && squash.is_none()
            && remove_source_branch.is_none() ==> (r matches Err(e) && e@
            == RejectionView::InvalidParams(nothing_to_update_text())),
        allow_write && !(title.is_none() && description.is_none() && draft.is_none()
            && reviewer_ids.is_none() && assignee_ids.is_none() && squash.is_none()
            && remove_source_branch.is_none()) ==> (r matches Ok(u) && u.path@
            == project_item_path_of(project@, "/merge_requests/"@, iid, ""@) && u.title == title
            && u.description == description && u.draft == draft && u.reviewer_ids == reviewer_ids
            && u.assignee_ids == assignee_ids && u.squash == squash && u.remove_source_branch
            == remove_source_branch),
{
    if !allow_write {
        return Err(write_disabled());
    }
    if title.is_none() && description.is_none() && draft.is_none() && reviewer_ids.is_none()
        && assignee_ids.is_none() && squash.is_none() && remove_source_branch.is_none() {
        return Err(
            invalid_params(
                "at least one of title, description, draft, reviewer_ids, assignee_ids, squash, or remove_source_branch must be provided",
            ),
        );
    }
    Ok(
        MergeRequestUpdate {
            path: project_item_path(project, "/merge_requests/", iid, ""),
            title,
            description,
            draft,
            reviewer_ids,
            assignee_ids,
            squash,
            remove_source_branch,
        },
    )
}

/// `list_commits` accepts exactly the orderings `default` and `topo`; any
/// other ordering is turned down.
pub proof fn law_commit_orders(order: Seq<char>)
    ensures
        known_order("default"@),
        known_order("topo"@),
        known_order(order) ==> order == "default"@ || order == "topo"@,
{
}

/// Marking or unmarking a draft without a new title sends the fetched
/// current title with the requested draft state: with `draft = true` it
/// starts with `Draft: `, and with either flag it is the fetched title
/// marked as that flag says.
pub proof fn law_update_marks_fetched_title(u: MergeRequestUpdate, current: Seq<char>)
    requires
        u.draft is Some,
        u.title is None,
    ensures
        u.title_outcome(Some(Ok(Some(current)))) == Ok::<Option<Seq<char>>, RejectionView>(
            Some(draft_title(current, u.draft.unwrap())),
        ),
        u.draft == Some(true) ==> (u.title_outcome(Some(Ok(Some(current)))) matches Ok(Some(s))
            && has_prefix(s, "Draft: "@)),
        u.draft == Some(false) ==> u.title_outcome(Some(Ok(Some(current)))) == u.title_outcome(
            Some(Ok(Some(draft_title(current, true)))),
        ),
{
    crate::draft::law_marked_title_prefix(current);
    crate::draft::law_unmark_after_mark(current);
}

/// The title an update sends, whatever was fetched: without a draft flag it
/// is the given title unchanged; with a draft flag and a given title it is
/// that title marked as the flag says; a failed fetch is turned down with
/// its error text, and a fetched merge request without a title with the
/// missing title message. Whenever `draft = true` leads to a title, it
/// starts with `Draft: `.
pub proof fn law_update_title(
    u: MergeRequestUpdate,
    current: Option<Result<Option<Seq<char>>, Seq<char>>>,
)
    ensures
        u.draft is None ==> u.title_outcome(current) == Ok::<Option<Seq<char>>, RejectionView>(
            opt_view(u.title),
        ),
        u.draft matches Some(d) ==> (u.title matches Some(t) ==> u.title_outcome(current) == Ok::<
            Option<Seq<char>>,
            RejectionView,
        >(Some(draft_title(t@, d)))),
        u.draft is Some && u.title is None ==> (current matches Some(Err(e)) ==> u.title_outcome(
            current,
        ) == Err::<Option<Seq<char>>, RejectionView>(RejectionView::ToolError(e))),
        (u.draft is Some && u.title is None && current == Some(
            Ok::<Option<Seq<char>>, Seq<char>>(None),
        )) ==> u.title_outcome(current) == Err::<Option<Seq<char>>, RejectionView>(
            RejectionView::ToolError(missing_title_text()),
        ),
        u.draft == Some(true) ==> (u.title_outcome(current) matches Ok(Some(s)) ==> has_prefix(
            s,
            "Draft: "@,
        )),
{
    match u.title {
        Some(t) => crate::draft::law_marked_title_prefix(t@),
        None => match current {
            Some(Ok(Some(c))) => crate::draft::law_marked_title_prefix(c),
            _ => {},
        },
    }
}

} // verus!

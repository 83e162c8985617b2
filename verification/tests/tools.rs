use gitlab_mcp::query::{optional, optional_bool, pagination};
use gitlab_mcp::request::{ApiRequest, HttpMethod, JsonField, Rejection};
use gitlab_mcp::json::Json;
use gitlab_mcp::response::{decode_body, tool_output};
use gitlab_mcp::tools;

fn q(pairs: &[(&str, &str)]) -> Vec<(String, String)> {
    pairs.iter().map(|(a, b)| (a.to_string(), b.to_string())).collect()
}

fn field_text(f: &JsonField) -> String {
    match f {
        JsonField::Null => "null".to_string(),
        JsonField::Bool(b) => b.to_string(),
        JsonField::Text(s) => format!("{s:?}"),
        JsonField::Ids(v) => format!("{v:?}"),
    }
}

fn body(r: &ApiRequest) -> Vec<(String, String)> {
    r.body
        .as_ref()
        .unwrap()
        .iter()
        .map(|(k, v)| (k.clone(), field_text(v)))
        .collect()
}

fn tool_error_text(r: Result<ApiRequest, Rejection>) -> String {
    match r {
        Err(Rejection::ToolError(m)) => m,
        other => panic!("expected a tool error, got {other:?}"),
    }
}

fn invalid_text<T: std::fmt::Debug>(r: Result<T, Rejection>) -> String {
    match r {
        Err(Rejection::InvalidParams(m)) => m,
        other => panic!("expected invalid params, got {other:?}"),
    }
}

#[test]
fn rejects_invalid_pagination() {
    assert!(pagination(Some(0), Some(30)).is_err());
    assert!(pagination(Some(1), Some(101)).is_err());
}

#[test]
fn pagination_defaults_and_messages() {
    assert_eq!(pagination(None, None).unwrap(), q(&[("page", "1"), ("per_page", "30")]));
    assert_eq!(pagination(Some(7), Some(100)).unwrap(), q(&[("page", "7"), ("per_page", "100")]));
    assert_eq!(invalid_text(pagination(Some(0), None)), "page must be at least 1");
    assert_eq!(invalid_text(pagination(None, Some(0))), "per_page must be between 1 and 100");
}

#[test]
fn optional_parameters_skip_absent_and_empty_values() {
    let mut query = Vec::new();
    optional(&mut query, "search", None);
    optional(&mut query, "search", Some(String::new()));
    optional(&mut query, "search", Some("api".to_string()));
    optional_bool(&mut query, "archived", None);
    optional_bool(&mut query, "archived", Some(false));
    assert_eq!(query, q(&[("search", "api"), ("archived", "false")]));
}

#[test]
fn project_path_is_encoded() {
    let r = tools::get_project("team/service");
    assert_eq!(r.method, HttpMethod::Get);
    assert_eq!(r.path, "/projects/team%2Fservice");
    assert!(r.query.is_empty());
    assert!(r.body.is_none());
}

#[test]
fn write_tools_are_disabled_by_default() {
    let r = tools::create_issue(false, "team/service", "Example".to_string(), None, None, None);
    assert_eq!(
        tool_error_text(r),
        "write tools are disabled; set GITLAB_ALLOW_WRITE=true to enable them"
    );
}

#[test]
fn every_write_tool_is_refused_while_writes_are_off() {
    let disabled = "write tools are disabled; set GITLAB_ALLOW_WRITE=true to enable them";
    let s = |v: &str| v.to_string();
    assert_eq!(tool_error_text(tools::create_branch(false, "p", s("b"), s("main"))), disabled);
    assert_eq!(tool_error_text(tools::create_tag(false, "p", s("v1"), s("main"), None)), disabled);
    assert_eq!(
        tool_error_text(tools::create_merge_request(
            false, "p", s("a"), s("b"), s("t"), None, None, None, None
        )),
        disabled
    );
    assert_eq!(tool_error_text(tools::add_issue_note(false, "p", 1, s("n"))), disabled);
    assert_eq!(tool_error_text(tools::add_merge_request_note(false, "p", 1, s("n"))), disabled);
    match tools::update_merge_request(false, "p", 1, Some(s("t")), None, None, None, None, None, None) {
        Err(Rejection::ToolError(m)) => assert_eq!(m, disabled),
        other => panic!("{other:?}"),
    }
}

#[test]
fn creates_branch_from_ref_when_writes_are_enabled() {
    let r = tools::create_branch(
        true,
        "team/service",
        "feature/retry-payment".to_string(),
        "main".to_string(),
    )
    .unwrap();
    assert_eq!(r.method, HttpMethod::Post);
    assert_eq!(r.path, "/projects/team%2Fservice/repository/branches");
    assert_eq!(
        body(&r),
        q(&[("branch", "\"feature/retry-payment\""), ("ref", "\"main\"")])
    );
}

#[test]
fn repository_inspection_tools_map_paths_and_queries() {
    let r = tools::list_branches("team/service", Some("release".into()), None, Some(2), Some(10))
        .unwrap();
    assert_eq!(r.path, "/projects/team%2Fservice/repository/branches");
    assert_eq!(r.query, q(&[("page", "2"), ("per_page", "10"), ("search", "release")]));

    let r = tools::get_branch("team/service", "release/qa");
    assert_eq!(r.path, "/projects/team%2Fservice/repository/branches/release%2Fqa");

    let r = tools::compare_refs("team/service", "release/qa".into(), "release/prod".into(), Some(true));
    assert_eq!(r.path, "/projects/team%2Fservice/repository/compare");
    assert_eq!(
        r.query,
        q(&[("from", "release/qa"), ("to", "release/prod"), ("straight", "true")])
    );

    let r = tools::list_commits(
        "team/service",
        Some("release/prod".into()),
        None,
        None,
        None,
        Some(true),
        None,
        None,
        Some(1),
        Some(25),
    )
    .unwrap();
    assert_eq!(r.path, "/projects/team%2Fservice/repository/commits");
    assert_eq!(
        r.query,
        q(&[("page", "1"), ("per_page", "25"), ("ref_name", "release/prod"), ("first_parent", "true")])
    );

    let r = tools::get_commit("team/service", "abc123", Some(false));
    assert_eq!(r.path, "/projects/team%2Fservice/repository/commits/abc123");
    assert_eq!(r.query, q(&[("stats", "false")]));
}

#[test]
fn branch_filters_and_commit_order_are_checked() {
    assert_eq!(
        invalid_text(tools::list_branches("p", Some("a".into()), Some("b".into()), None, None)),
        "search and regex cannot be used together"
    );
    assert_eq!(
        invalid_text(tools::list_commits(
            "p", None, None, None, None, None, None, Some("newest".into()), None, None
        )),
        "order must be default or topo"
    );
    assert_eq!(
        invalid_text(tools::list_commits(
            "p", None, None, None, None, None, None, Some(String::new()), None, None
        )),
        "order must be default or topo"
    );
    let r = tools::list_commits(
        "p",
        None,
        Some("src".into()),
        Some("2024-01-01".into()),
        Some("2024-02-01".into()),
        None,
        Some(false),
        Some("topo".into()),
        None,
        None,
    )
    .unwrap();
    assert_eq!(
        r.query,
        q(&[
            ("page", "1"),
            ("per_page", "30"),
            ("path", "src"),
            ("since", "2024-01-01"),
            ("until", "2024-02-01"),
            ("order", "topo"),
            ("with_stats", "false"),
        ])
    );
}

#[test]
fn group_and_cicd_tools_map_paths_and_trace_text() {
    let r = tools::list_group_projects("platform/backend", None, Some(true), None, None, None, None)
        .unwrap();
    assert_eq!(r.path, "/groups/platform%2Fbackend/projects");
    assert_eq!(
        r.query,
        q(&[
            ("page", "1"),
            ("per_page", "30"),
            ("include_subgroups", "true"),
            ("order_by", "last_activity_at"),
            ("sort", "desc"),
        ])
    );
    assert_eq!(tools::get_pipeline("team/service", 987).path, "/projects/team%2Fservice/pipelines/987");
    assert_eq!(
        tools::get_job_trace("team/service", 654).path,
        "/projects/team%2Fservice/jobs/654/trace"
    );
    let trace = decode_body(200, "200 OK", b"compile\ntest failed\n", 64 * 1024);
    assert!(matches!(&trace, Ok(Json::Str(s)) if s == "compile\ntest failed\n"));
    let text = tool_output(trace).unwrap();
    assert!(text.contains("test failed"));
}

#[test]
fn remaining_read_tools() {
    let r = tools::get_current_user();
    assert_eq!((r.method, r.path.as_str()), (HttpMethod::Get, "/user"));

    let r = tools::list_projects(Some("quote".into()), Some(true), None, Some(5)).unwrap();
    assert_eq!(r.path, "/projects");
    assert_eq!(
        r.query,
        q(&[
            ("page", "1"),
            ("per_page", "5"),
            ("search", "quote"),
            ("membership", "true"),
            ("order_by", "last_activity_at"),
            ("sort", "desc"),
        ])
    );

    let r = tools::list_merge_requests("a/b", Some("opened".into()), None, None).unwrap();
    assert_eq!(r.path, "/projects/a%2Fb/merge_requests");
    assert_eq!(r.query, q(&[("page", "1"), ("per_page", "30"), ("state", "opened"), ("scope", "all")]));

    let r = tools::list_issues("a/b", None, Some(3), None).unwrap();
    assert_eq!(r.path, "/projects/a%2Fb/issues");
    assert_eq!(r.query, q(&[("page", "3"), ("per_page", "30"), ("scope", "all")]));

    assert_eq!(tools::get_merge_request("a/b", 128).path, "/projects/a%2Fb/merge_requests/128");
    assert_eq!(tools::get_issue("a/b", 25).path, "/projects/a%2Fb/issues/25");

    let r = tools::list_merge_request_diffs("a/b", 128);
    assert_eq!(r.path, "/projects/a%2Fb/merge_requests/128/diffs");
    assert_eq!(r.query, q(&[("per_page", "100")]));

    let r = tools::list_repository_tree("a/b", Some("src/api".into()), Some("main".into()), Some(true), None, None)
        .unwrap();
    assert_eq!(r.path, "/projects/a%2Fb/repository/tree");
    assert_eq!(
        r.query,
        q(&[("page", "1"), ("per_page", "30"), ("path", "src/api"), ("ref", "main"), ("recursive", "true")])
    );

    let r = tools::get_repository_file("a/b", "src/main.rs", "main".into());
    assert_eq!(r.path, "/projects/a%2Fb/repository/files/src%2Fmain%2Ers");
    assert_eq!(r.query, q(&[("ref", "main")]));

    let r = tools::list_pipelines("a/b", Some("main".into()), Some("failed".into()), None, None).unwrap();
    assert_eq!(r.path, "/projects/a%2Fb/pipelines");
    assert_eq!(
        r.query,
        q(&[("page", "1"), ("per_page", "30"), ("ref", "main"), ("status", "failed")])
    );

    let r = tools::list_pipeline_jobs("a/b", 98765, Some(2), Some(50)).unwrap();
    assert_eq!(r.path, "/projects/a%2Fb/pipelines/98765/jobs");
    assert_eq!(r.query, q(&[("page", "2"), ("per_page", "50")]));
    assert!(tools::list_pipeline_jobs("a/b", 1, Some(0), None).is_err());
}

#[test]
fn update_merge_request_fetches_title_to_remove_draft_prefix() {
    let u = tools::update_merge_request(
        true,
        "team/service",
        128,
        None,
        Some("Ready for review".into()),
        Some(false),
        Some(vec![10, 11]),
        Some(vec![]),
        Some(true),
        Some(false),
    )
    .unwrap();
    assert!(u.fetches_current_title());
    let get = u.current_title_request();
    assert_eq!(get.method, HttpMethod::Get);
    assert_eq!(get.path, "/projects/team%2Fservice/merge_requests/128");
    let put = u.finish(Some(Ok(Json::Object(vec![("title".into(), Json::Str("WIP: Retry payment".into()))])))).unwrap();
    assert_eq!(put.method, HttpMethod::Put);
    assert_eq!(put.path, "/projects/team%2Fservice/merge_requests/128");
    assert_eq!(
        body(&put),
        q(&[
            ("title", "\"Retry payment\""),
            ("description", "\"Ready for review\""),
            ("reviewer_ids", "[10, 11]"),
            ("assignee_ids", "[]"),
            ("squash", "true"),
            ("remove_source_branch", "false"),
        ])
    );
}

#[test]
fn update_merge_request_requires_a_field_and_a_title() {
    assert_eq!(
        invalid_text(tools::update_merge_request(true, "p", 1, None, None, None, None, None, None, None)),
        "at least one of title, description, draft, reviewer_ids, assignee_ids, squash, or remove_source_branch must be provided"
    );
    let u = tools::update_merge_request(true, "p", 1, None, None, Some(true), None, None, None, None)
        .unwrap();
    assert_eq!(
        tool_error_text(u.finish(Some(Ok(Json::Object(vec![]))))),
        "GitLab merge request response is missing title"
    );
    let u = tools::update_merge_request(true, "p", 1, None, None, Some(true), None, None, None, None)
        .unwrap();
    assert_eq!(tool_error_text(u.finish(Some(Err("boom".into())))), "boom");
    let u = tools::update_merge_request(true, "p", 1, Some(" Retry".into()), None, Some(true), None, None, None, None)
        .unwrap();
    assert!(!u.fetches_current_title());
    assert_eq!(body(&u.finish(None).unwrap()), q(&[("title", "\"Draft: Retry\"")]));
    let u = tools::update_merge_request(true, "p", 1, Some("WIP: as is".into()), None, None, None, None, None, None)
        .unwrap();
    assert_eq!(body(&u.finish(None).unwrap()), q(&[("title", "\"WIP: as is\"")]));
}

#[test]
fn creates_merge_request_with_squash_and_source_branch_removal() {
    let r = tools::create_merge_request(
        true,
        "team/service",
        "feature/retry".into(),
        "main".into(),
        "Retry payment".into(),
        None,
        None,
        Some(true),
        Some(true),
    )
    .unwrap();
    assert_eq!(r.method, HttpMethod::Post);
    assert_eq!(r.path, "/projects/team%2Fservice/merge_requests");
    assert_eq!(
        body(&r),
        q(&[
            ("source_branch", "\"feature/retry\""),
            ("target_branch", "\"main\""),
            ("title", "\"Retry payment\""),
            ("description", "null"),
            ("squash", "true"),
            ("remove_source_branch", "true"),
        ])
    );
}

#[test]
fn creates_annotated_tag_when_writes_are_enabled() {
    let r = tools::create_tag(
        true,
        "team/service",
        "v1.2.0".into(),
        "abc123".into(),
        Some("Production release".into()),
    )
    .unwrap();
    assert_eq!(r.path, "/projects/team%2Fservice/repository/tags");
    assert_eq!(
        body(&r),
        q(&[("tag_name", "\"v1.2.0\""), ("ref", "\"abc123\""), ("message", "\"Production release\"")])
    );
    let r = tools::create_tag(true, "p", "v1".into(), "main".into(), None).unwrap();
    assert_eq!(body(&r), q(&[("tag_name", "\"v1\""), ("ref", "\"main\"")]));
}

#[test]
fn issue_and_note_bodies() {
    let r = tools::create_issue(true, "a/b", "Bug".into(), Some("d".into()), None, Some(vec![42])).unwrap();
    assert_eq!(r.path, "/projects/a%2Fb/issues");
    assert_eq!(
        body(&r),
        q(&[("title", "\"Bug\""), ("description", "\"d\""), ("labels", "null"), ("assignee_ids", "[42]")])
    );
    let r = tools::add_issue_note(true, "a/b", 25, "done".into()).unwrap();
    assert_eq!(r.path, "/projects/a%2Fb/issues/25/notes");
    assert_eq!(body(&r), q(&[("body", "\"done\"")]));
    let r = tools::add_merge_request_note(true, "a/b", 128, "ok".into()).unwrap();
    assert_eq!(r.path, "/projects/a%2Fb/merge_requests/128/notes");
    let r = tools::create_merge_request(true, "a/b", "x".into(), "y".into(), "T".into(), None, Some(true), None, None)
        .unwrap();
    assert_eq!(body(&r)[2], ("title".to_string(), "\"Draft: T\"".to_string()));
}

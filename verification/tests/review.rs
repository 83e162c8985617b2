use gitlab_mcp::json::Json;
use gitlab_mcp::request::{HttpMethod, Rejection};
use gitlab_mcp::response::{decode_body, review_output};
use gitlab_mcp::review::{
    assemble_review, review_merge_request_context, review_summary, start_review, ReviewContext,
    ReviewSections, ReviewSummary, SectionOutcome, SectionRequests,
};

fn q(pairs: &[(&str, &str)]) -> Vec<(String, String)> {
    pairs.iter().map(|(a, b)| (a.to_string(), b.to_string())).collect()
}

fn obj(members: Vec<(&str, Json)>) -> Json {
    Json::Object(members.into_iter().map(|(k, v)| (k.to_string(), v)).collect())
}

fn num(n: u64) -> Json {
    Json::Number(n.to_string())
}

fn text(s: &str) -> Json {
    Json::Str(s.to_string())
}

fn names(members: &[(String, Json)]) -> Vec<String> {
    members.iter().map(|(k, _)| k.clone()).collect()
}

/// What the client makes of an answer with this status and body.
fn answer(code: u16, status: &str, body: &str) -> Result<Json, String> {
    decode_body(code, status, body.as_bytes(), 64 * 1024)
}

fn fetched(code: u16, status: &str, body: &str) -> SectionOutcome {
    match answer(code, status, body) {
        Ok(doc) => SectionOutcome::Fetched(doc),
        Err(e) => SectionOutcome::Failed(e),
    }
}

fn no_sections() -> SectionRequests {
    SectionRequests {
        diffs: None,
        commits: None,
        discussions: None,
        related_issues: None,
        pipelines: None,
        approvals: None,
    }
}

/// The review tool's text for a review, read back as JSON.
fn document_text(review: ReviewContext) -> serde_json::Value {
    let text = review_output(&review.into_document(), 64 * 1024).unwrap();
    serde_json::from_str(&text).unwrap()
}

#[test]
fn review_context_aggregates_optional_sections() {
    let plan = review_merge_request_context("team/service", 128, None, None, None, None, None, None, Some(20))
        .unwrap();
    let base = "/projects/team%2Fservice/merge_requests/128";
    assert_eq!(plan.merge_request.method, HttpMethod::Get);
    assert_eq!(plan.merge_request.path, base);
    assert_eq!(
        plan.merge_request.query,
        q(&[("include_diverged_commits_count", "true"), ("include_rebase_in_progress", "true")])
    );
    let diffs = plan.sections.diffs.unwrap();
    assert_eq!(diffs.path, format!("{base}/diffs"));
    assert_eq!(diffs.query, q(&[("page", "1"), ("per_page", "20")]));
    assert_eq!(plan.sections.commits.unwrap().path, format!("{base}/commits"));
    assert_eq!(plan.sections.discussions.unwrap().path, format!("{base}/discussions"));
    let related = plan.sections.related_issues.unwrap();
    assert_eq!(related.path, format!("{base}/related_issues"));
    assert!(related.query.is_empty());
    assert_eq!(plan.sections.pipelines.unwrap().query, q(&[("page", "1"), ("per_page", "20")]));
    assert!(plan.sections.approvals.unwrap().query.is_empty());

    let start = match start_review(
        answer(200, "200 OK", r#"{"iid":128,"title":"Retry payments"}"#),
        no_sections(),
    ) {
        Ok(start) => start,
        Err(e) => panic!("{e:?}"),
    };
    let review = assemble_review(
        start.merge_request,
        ReviewSections {
            diffs: fetched(200, "200 OK", r#"[{"new_path":"src/main.rs","diff":"@@"}]"#),
            commits: fetched(200, "200 OK", r#"[{"id":"abc"}]"#),
            discussions: fetched(
                200,
                "200 OK",
                r#"[{"id":"discussion-1","notes":[{"resolvable":true,"resolved":false}]}]"#,
            ),
            related_issues: fetched(200, "200 OK", r#"[{"iid":25}]"#),
            pipelines: fetched(200, "200 OK", r#"[{"id":987,"status":"success"}]"#),
            approvals: fetched(200, "200 OK", r#"{"approved":true}"#),
        },
    );
    assert!(!review.partial);
    assert!(review.warnings.is_empty());
    assert_eq!(review.summary.files_changed_returned, 1);
    assert_eq!(review.summary.commits_returned, 1);
    assert_eq!(review.summary.discussions_returned, 1);
    assert_eq!(review.summary.unresolved_discussions, 1);
    assert_eq!(review.summary.related_issues_returned, 1);
    assert_eq!(review.summary.pipelines_returned, 1);
    assert_eq!(review.summary.approved, Some(true));
    assert_eq!(
        names(&review.members),
        vec!["merge_request", "diffs", "commits", "discussions", "related_issues", "pipelines", "approvals"]
    );
    let context = document_text(review);
    assert_eq!(context["partial"], false);
    assert_eq!(context["summary"]["files_changed_returned"], 1);
    assert_eq!(context["summary"]["unresolved_discussions"], 1);
    assert_eq!(context["summary"]["approved"], true);
    assert_eq!(context["merge_request"]["title"], "Retry payments");
}

#[test]
fn review_context_keeps_core_data_when_optional_endpoint_fails() {
    let plan = review_merge_request_context(
        "team/service",
        128,
        Some(false),
        Some(false),
        Some(false),
        Some(false),
        Some(false),
        Some(true),
        None,
    )
    .unwrap();
    assert!(plan.sections.diffs.is_none() && plan.sections.commits.is_none() && plan.sections.discussions.is_none());
    assert!(plan.sections.related_issues.is_none() && plan.sections.pipelines.is_none());
    assert_eq!(
        plan.sections.approvals.as_ref().unwrap().path,
        "/projects/team%2Fservice/merge_requests/128/approvals"
    );

    let start = match start_review(answer(200, "200 OK", r#"{"iid":128}"#), plan.sections) {
        Ok(start) => start,
        Err(e) => panic!("{e:?}"),
    };
    let approvals = fetched(404, "404 Not Found", r#"{"message":"404 Not Found"}"#);
    let review = assemble_review(
        start.merge_request,
        ReviewSections {
            diffs: SectionOutcome::Skipped,
            commits: SectionOutcome::Skipped,
            discussions: SectionOutcome::Skipped,
            related_issues: SectionOutcome::Skipped,
            pipelines: SectionOutcome::Skipped,
            approvals,
        },
    );
    assert!(review.partial);
    assert_eq!(names(&review.members), vec!["merge_request"]);
    match &review.members[0].1 {
        Json::Object(mr) => {
            assert_eq!(mr[0].0, "iid");
            assert!(matches!(&mr[0].1, Json::Number(n) if n == "128"));
        }
        _ => panic!(),
    }
    assert_eq!(review.warnings.len(), 1);
    assert!(review.warnings[0].starts_with("approvals:"));
    assert_eq!(
        review.warnings[0],
        "approvals: GitLab API returned 404 Not Found: {\"message\":\"404 Not Found\"}"
    );
    assert_eq!(review.summary.approved, None);
    assert_eq!(review.summary.files_changed_returned, 0);

    let context = document_text(review);
    assert_eq!(context["merge_request"]["iid"], 128);
    assert_eq!(context["partial"], true);
    assert!(context["warnings"][0].as_str().unwrap().starts_with("approvals:"));
}

#[test]
fn review_page_size_is_checked() {
    for bad in [0u32, 101] {
        match review_merge_request_context("p", 1, None, None, None, None, None, None, Some(bad)) {
            Err(Rejection::InvalidParams(m)) => assert_eq!(m, "per_page must be between 1 and 100"),
            other => panic!("{other:?}"),
        }
    }
    let plan = review_merge_request_context("p", 1, None, None, None, None, None, None, None).unwrap();
    assert_eq!(plan.sections.diffs.unwrap().query, q(&[("page", "1"), ("per_page", "30")]));
}

#[test]
fn summary_counts_only_arrays_and_open_notes() {
    let note = |resolvable: Option<Json>, resolved: Option<Json>| {
        let mut ms = vec![];
        if let Some(v) = resolvable {
            ms.push(("resolvable", v));
        }
        if let Some(v) = resolved {
            ms.push(("resolved", v));
        }
        obj(ms)
    };
    let discussions = Json::Array(vec![
        obj(vec![("notes", Json::Array(vec![note(Some(Json::Bool(true)), None)]))]),
        obj(vec![("notes", Json::Array(vec![note(Some(Json::Bool(true)), Some(Json::Bool(true)))]))]),
        obj(vec![("notes", Json::Array(vec![note(Some(Json::Bool(false)), Some(Json::Bool(false)))]))]),
        obj(vec![(
            "notes",
            Json::Array(vec![
                note(None, None),
                note(Some(text("true")), None),
                note(Some(Json::Bool(true)), Some(text("yes"))),
            ]),
        )]),
        obj(vec![("notes", obj(vec![]))]),
        text("not a discussion"),
    ]);
    let ctx = obj(vec![
        ("diffs", obj(vec![])),
        ("commits", Json::Array(vec![Json::Null, Json::Null, Json::Null])),
        ("discussions", discussions),
        ("approvals", Json::Array(vec![])),
    ]);
    let s = review_summary(&ctx);
    assert_eq!(s.files_changed_returned, 0);
    assert_eq!(s.commits_returned, 3);
    assert_eq!(s.discussions_returned, 6);
    assert_eq!(s.unresolved_discussions, 2);
    assert_eq!(s.related_issues_returned, 0);
    assert_eq!(s.pipelines_returned, 0);
    assert_eq!(s.approved, None);

    let s = review_summary(&obj(vec![("approvals", obj(vec![("approved", Json::Bool(false))]))]));
    assert_eq!(s.approved, Some(false));
    let s = review_summary(&Json::Null);
    assert_eq!(s.commits_returned, 0);
}

#[test]
fn failed_and_skipped_sections_leave_the_context() {
    let review = assemble_review(
        Json::Null,
        ReviewSections {
            diffs: SectionOutcome::Failed("timeout".into()),
            commits: SectionOutcome::Fetched(Json::Array(vec![Json::Null, Json::Null])),
            discussions: SectionOutcome::Skipped,
            related_issues: SectionOutcome::Failed("403 Forbidden".into()),
            pipelines: SectionOutcome::Fetched(Json::Array(vec![])),
            approvals: SectionOutcome::Skipped,
        },
    );
    assert!(review.partial);
    assert_eq!(review.warnings, vec!["diffs: timeout", "related_issues: 403 Forbidden"]);
    assert_eq!(names(&review.members), vec!["merge_request", "commits", "pipelines"]);
    assert_eq!(review.summary.commits_returned, 2);
    assert_eq!(review.summary.files_changed_returned, 0);
    assert_eq!(review.summary.pipelines_returned, 0);
}

#[test]
fn a_failed_merge_request_fetch_ends_the_review() {
    let plan = review_merge_request_context("team/service", 128, None, None, None, None, None, None, None)
        .unwrap();
    let failed = answer(404, "404 Not Found", r#"{"message":"404 Project Not Found"}"#);
    match start_review(failed, plan.sections) {
        Err(Rejection::ToolError(m)) => {
            assert_eq!(m, "GitLab API returned 404 Not Found: {\"message\":\"404 Project Not Found\"}")
        }
        other => panic!("{other:?}"),
    }
    match start_review(Err("failed to connect to GitLab at http://g/api/v4".into()), no_sections()) {
        Err(Rejection::ToolError(m)) => assert_eq!(m, "failed to connect to GitLab at http://g/api/v4"),
        other => panic!("{other:?}"),
    }
    let plan = review_merge_request_context("p", 1, Some(false), None, None, None, None, None, None)
        .unwrap();
    let start = start_review(Ok(Json::Null), plan.sections).unwrap();
    assert!(matches!(start.merge_request, Json::Null));
    assert!(start.sections.diffs.is_none());
    assert_eq!(start.sections.commits.unwrap().path, "/projects/p/merge_requests/1/commits");
}

#[test]
fn review_document_appends_summary_partial_and_warnings() {
    let review = assemble_review(
        obj(vec![("iid", num(7))]),
        ReviewSections {
            diffs: SectionOutcome::Failed("timeout".into()),
            commits: SectionOutcome::Fetched(Json::Array(vec![Json::Null])),
            discussions: SectionOutcome::Skipped,
            related_issues: SectionOutcome::Skipped,
            pipelines: SectionOutcome::Skipped,
            approvals: SectionOutcome::Skipped,
        },
    );
    let doc = review.into_document();
    let members = match &doc {
        Json::Object(ms) => ms,
        _ => panic!("not an object"),
    };
    assert_eq!(
        names(members),
        vec!["merge_request", "commits", "summary", "partial", "warnings"]
    );
    assert!(matches!(members[3].1, Json::Bool(true)));
    match &members[4].1 {
        Json::Array(ws) => {
            assert_eq!(ws.len(), 1);
            assert!(matches!(&ws[0], Json::Str(w) if w == "diffs: timeout"));
        }
        _ => panic!(),
    }
    match &members[2].1 {
        Json::Object(s) => {
            assert_eq!(
                names(s),
                vec![
                    "files_changed_returned",
                    "commits_returned",
                    "discussions_returned",
                    "unresolved_discussions",
                    "related_issues_returned",
                    "pipelines_returned",
                    "approved",
                ]
            );
            assert!(matches!(&s[1].1, Json::Number(n) if n == "1"));
            assert!(matches!(&s[0].1, Json::Number(n) if n == "0"));
            assert!(matches!(s[6].1, Json::Null));
        }
        _ => panic!(),
    }
}

#[test]
fn summary_as_json() {
    let s = ReviewSummary {
        files_changed_returned: 12,
        commits_returned: 3,
        discussions_returned: 0,
        unresolved_discussions: 0,
        related_issues_returned: 1,
        pipelines_returned: 2,
        approved: Some(false),
    };
    let text = gitlab_mcp::response::tool_output(Ok(s.to_json())).unwrap();
    let v: serde_json::Value = serde_json::from_str(&text).unwrap();
    assert_eq!(v["files_changed_returned"], 12);
    assert_eq!(v["commits_returned"], 3);
    assert_eq!(v["pipelines_returned"], 2);
    assert_eq!(v["approved"], false);
}

#[test]
fn review_text_over_the_limit_is_refused() {
    let doc = obj(vec![("merge_request", obj(vec![("iid", num(1))]))]);
    let text = review_output(&doc, 1024).unwrap();
    let len = text.len();
    assert_eq!(text, "{\n  \"merge_request\": {\n    \"iid\": 1\n  }\n}");
    assert!(review_output(&doc, len).is_ok());
    assert_eq!(
        review_output(&doc, len - 1).unwrap_err(),
        format!(
            "aggregated review context is {len} bytes, exceeding the configured {} byte limit; disable unneeded include_* sections, lower per_page, or increase GITLAB_MAX_RESPONSE_BYTES",
            len - 1
        )
    );
}

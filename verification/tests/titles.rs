use gitlab_mcp::draft::{merge_request_title, set_draft_title, strip_draft_prefix};

#[test]
fn draft_title_helpers_support_gitlab_prefixes() {
    assert_eq!(set_draft_title("Feature", true), "Draft: Feature");
    assert_eq!(set_draft_title("[Draft] Feature", true), "Draft: Feature");
    assert_eq!(set_draft_title("wip: Feature", false), "Feature");
}

#[test]
fn strips_each_marker_in_any_case() {
    assert_eq!(strip_draft_prefix("Draft: x"), "x");
    assert_eq!(strip_draft_prefix("draft -x"), "x");
    assert_eq!(strip_draft_prefix("[DRAFT]   x"), "x");
    assert_eq!(strip_draft_prefix("(draft)x"), "x");
    assert_eq!(strip_draft_prefix("WIP:\u{3000}x"), "x");
    assert_eq!(strip_draft_prefix("wip - x"), "x");
    assert_eq!(strip_draft_prefix("[wip] x"), "x");
    assert_eq!(strip_draft_prefix("(Wip) x"), "x");
}

#[test]
fn leaves_unmarked_titles_alone() {
    assert_eq!(strip_draft_prefix("Drafting rules"), "Drafting rules");
    assert_eq!(strip_draft_prefix(" Draft: x"), " Draft: x");
    assert_eq!(strip_draft_prefix("WIP"), "WIP");
    assert_eq!(strip_draft_prefix(""), "");
    assert_eq!(strip_draft_prefix("Dräft: x"), "Dräft: x");
}

#[test]
fn only_one_marker_is_removed() {
    assert_eq!(strip_draft_prefix("Draft: WIP: x"), "WIP: x");
    assert_eq!(set_draft_title("Draft: WIP: x", false), "WIP: x");
    assert_eq!(set_draft_title("Draft: WIP: x", true), "Draft: WIP: x");
}

#[test]
fn trims_leading_whitespace_before_the_marker() {
    assert_eq!(set_draft_title("  \t(WIP) Retry", false), "Retry");
    assert_eq!(set_draft_title("\u{00A0}Retry", true), "Draft: Retry");
}

#[test]
fn marking_twice_and_unmarking_after_marking() {
    for t in ["Feature", "  [WIP]  Retry", "Draft: Draft: x", "", "wip -"] {
        let marked = set_draft_title(t, true);
        assert!(marked.starts_with("Draft: "));
        assert_eq!(set_draft_title(&marked, true), marked);
        assert_eq!(set_draft_title(&marked, false), set_draft_title(t, false));
    }
}

#[test]
fn new_merge_request_titles() {
    assert_eq!(merge_request_title("Retry".to_string(), Some(true)), "Draft: Retry");
    assert_eq!(merge_request_title("Draft: Retry".to_string(), Some(true)), "Draft: Retry");
    assert_eq!(merge_request_title("draft: Retry".to_string(), Some(true)), "Draft: draft: Retry");
    assert_eq!(merge_request_title("Retry".to_string(), Some(false)), "Retry");
    assert_eq!(merge_request_title("Retry".to_string(), None), "Retry");
}

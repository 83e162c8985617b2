use gitlab_mcp::config::{
    api_url, client_settings, flag_enabled, missing_variable, parse_max_response_bytes, parse_usize,
    AuthScheme, ConfigError, DEFAULT_MAX_RESPONSE_BYTES,
};
use gitlab_mcp::json::Json;
use gitlab_mcp::response::{
    check_body_length, check_declared_length, check_review_size, connect_error, decode_body,
    status_error, tool_output,
};
use gitlab_mcp::segment::encode_segment;
use gitlab_mcp::text::decimal_string;

#[test]
fn builds_api_url() {
    assert_eq!(
        api_url("https://gitlab.example.com/"),
        "https://gitlab.example.com/api/v4"
    );
    assert_eq!(
        api_url("https://gitlab.example.com/api/v4"),
        "https://gitlab.example.com/api/v4"
    );
}

#[test]
fn encodes_project_and_file_paths_as_one_segment() {
    assert_eq!(encode_segment("team/app"), "team%2Fapp");
    assert_eq!(encode_segment("src/main.rs"), "src%2Fmain%2Ers");
}

#[test]
fn api_url_strips_every_trailing_slash() {
    assert_eq!(api_url("https://gitlab.example.com///"), "https://gitlab.example.com/api/v4");
    assert_eq!(api_url("https://gitlab.example.com/api/v4//"), "https://gitlab.example.com/api/v4");
    assert_eq!(api_url(""), "/api/v4");
    assert_eq!(api_url("https://h/gitlab"), "https://h/gitlab/api/v4");
}

#[test]
fn api_url_is_idempotent_on_examples() {
    for input in ["https://a.example/", "https://a.example/api/v4", "x//", "/api/v4/"] {
        let once = api_url(input);
        assert_eq!(api_url(&once), once);
        assert!(once.ends_with("/api/v4"));
    }
}

#[test]
fn encodes_non_ascii_and_reserved_bytes() {
    assert_eq!(encode_segment("ü/ x"), "%C3%BC%2F%20x");
    assert_eq!(encode_segment("a-b_c.d~e"), "a%2Db%5Fc%2Ed%7Ee");
    assert_eq!(encode_segment("Team42"), "Team42");
    assert_eq!(encode_segment(""), "");
    assert!(!encode_segment("group/sub/project").contains('/'));
}

#[test]
fn write_flag_accepts_one_true_yes_in_any_case() {
    for on in ["1", "true", "TRUE", "Yes", "yEs"] {
        assert!(flag_enabled(on), "{on}");
    }
    for off in ["0", "false", "on", "", " true", "yes "] {
        assert!(!flag_enabled(off), "{off}");
    }
}

#[test]
fn parses_unsigned_numbers_like_std() {
    assert_eq!(parse_usize("0"), Some(0));
    assert_eq!(parse_usize("+17"), Some(17));
    assert_eq!(parse_usize("1048576"), Some(1048576));
    assert_eq!(parse_usize(""), None);
    assert_eq!(parse_usize("+"), None);
    assert_eq!(parse_usize("-1"), None);
    assert_eq!(parse_usize(" 1"), None);
    assert_eq!(parse_usize("1a"), None);
    assert_eq!(parse_usize("99999999999999999999999999"), None);
    assert_eq!(parse_usize(&usize::MAX.to_string()), Some(usize::MAX));
}

#[test]
fn response_limit_defaults_and_rejects_bad_values() {
    assert_eq!(parse_max_response_bytes(None).unwrap(), DEFAULT_MAX_RESPONSE_BYTES);
    assert_eq!(DEFAULT_MAX_RESPONSE_BYTES, 1048576);
    assert_eq!(parse_max_response_bytes(Some("4096")).unwrap(), 4096);
    assert!(matches!(
        parse_max_response_bytes(Some("0")),
        Err(ConfigError::ZeroMaxResponseBytes)
    ));
    assert!(matches!(
        parse_max_response_bytes(Some("many")),
        Err(ConfigError::InvalidMaxResponseBytes)
    ));
}

#[test]
fn token_types_choose_the_header() {
    let s = client_settings("https://g.example/", "tok", None, false, None).unwrap();
    assert_eq!(s.scheme, AuthScheme::PrivateToken);
    assert_eq!(s.auth_header_value, "tok");
    assert_eq!(s.base_api_url, "https://g.example/api/v4");
    assert_eq!(s.max_response_bytes, 1048576);
    assert_eq!(s.max_response_bytes(), 1048576);
    assert!(!s.insecure);

    let s = client_settings("https://g.example", "tok", Some("PAT"), true, Some("10")).unwrap();
    assert_eq!(s.scheme, AuthScheme::PrivateToken);
    assert!(s.insecure);
    assert_eq!(s.max_response_bytes, 10);

    let s = client_settings("https://g.example", "tok", Some("OAuth"), false, None).unwrap();
    assert_eq!(s.scheme, AuthScheme::Bearer);
    assert_eq!(s.auth_header_value, "Bearer tok");

    let s = client_settings("https://g.example", "tok", Some("bearer"), false, None).unwrap();
    assert_eq!(s.scheme, AuthScheme::Bearer);

    let s = client_settings("https://g.example", "tok", Some("Job"), false, None).unwrap();
    assert_eq!(s.scheme, AuthScheme::JobToken);
    assert_eq!(s.auth_header_value, "tok");
    assert_eq!(s.url_for("/user"), "https://g.example/api/v4/user");
}

#[test]
fn settings_errors_come_in_checking_order() {
    let e = client_settings("u", "bad\ntoken", Some("nonsense"), false, Some("0")).unwrap_err();
    assert!(matches!(e, ConfigError::ZeroMaxResponseBytes));
    let e = client_settings("u", "bad\ntoken", Some("nonsense"), false, None).unwrap_err();
    assert!(matches!(e, ConfigError::InvalidTokenCharacters));
    assert_eq!(e.message(), "GITLAB_TOKEN contains invalid header characters");
    let e = client_settings("u", "token", Some("Basic"), false, None).unwrap_err();
    assert_eq!(
        e.message(),
        "unsupported GITLAB_TOKEN_TYPE: basic; use private, oauth, or job"
    );
    let e = client_settings("u", "tökén", Some("oauth"), false, None).unwrap_err();
    assert!(matches!(e, ConfigError::TokenNotVisibleAscii));
    assert_eq!(e.message(), "GITLAB_TOKEN must be visible ASCII");
    let s = client_settings("u", "tökén", Some("private"), false, None).unwrap();
    assert_eq!(s.auth_header_value, "tökén");
    let e = client_settings("u", "t\u{7f}", None, false, None).unwrap_err();
    assert!(matches!(e, ConfigError::InvalidTokenCharacters));
}

#[test]
fn config_error_messages() {
    assert_eq!(
        ConfigError::InvalidMaxResponseBytes.message(),
        "GITLAB_MAX_RESPONSE_BYTES must be a positive integer"
    );
    assert_eq!(
        ConfigError::ZeroMaxResponseBytes.message(),
        "GITLAB_MAX_RESPONSE_BYTES must be greater than zero"
    );
    assert_eq!(
        missing_variable("GITLAB_URL").message(),
        "missing required environment variable GITLAB_URL"
    );
}

#[test]
fn decimal_rendering() {
    assert_eq!(decimal_string(0), "0");
    assert_eq!(decimal_string(7), "7");
    assert_eq!(decimal_string(1234567890), "1234567890");
    assert_eq!(decimal_string(u64::MAX), u64::MAX.to_string());
}

#[test]
fn response_size_checks() {
    assert!(check_declared_length(None, 10).is_ok());
    assert!(check_declared_length(Some(10), 10).is_ok());
    assert_eq!(
        check_declared_length(Some(11), 10).unwrap_err(),
        "GitLab response is 11 bytes, exceeding the configured 10 byte limit"
    );
    assert!(check_body_length(10, 10).is_ok());
    assert_eq!(
        check_body_length(2048, 1024).unwrap_err(),
        "GitLab response exceeds the configured 1024 byte limit"
    );
    assert!(check_review_size(64, 64).is_ok());
    assert_eq!(
        check_review_size(65, 64).unwrap_err(),
        "aggregated review context is 65 bytes, exceeding the configured 64 byte limit; disable unneeded include_* sections, lower per_page, or increase GITLAB_MAX_RESPONSE_BYTES"
    );
}

#[test]
fn status_errors_and_connection_errors() {
    assert_eq!(status_error(200, "200 OK", "{}"), None);
    assert_eq!(status_error(299, "299", "{}"), None);
    assert_eq!(
        status_error(404, "404 Not Found", "{\"message\":\"404 Not Found\"}").unwrap(),
        "GitLab API returned 404 Not Found: {\"message\":\"404 Not Found\"}"
    );
    assert!(status_error(199, "199", "x").is_some());
    assert!(status_error(300, "300 Multiple Choices", "x").is_some());
    assert_eq!(
        connect_error("https://g.example/api/v4"),
        "failed to connect to GitLab at https://g.example/api/v4"
    );
}

#[test]
fn answers_are_read_as_json_or_text() {
    match decode_body(200, "200 OK", br#"{"id":42,"name":"api"}"#, 1024) {
        Ok(Json::Object(ms)) => {
            assert_eq!(ms[0].0, "id");
            assert!(matches!(&ms[0].1, Json::Number(n) if n == "42"));
            assert!(matches!(&ms[1].1, Json::Str(s) if s == "api"));
        }
        other => panic!("{other:?}"),
    }
    assert!(matches!(decode_body(201, "201 Created", b"[]", 1024), Ok(Json::Array(v)) if v.is_empty()));
    assert!(matches!(decode_body(204, "204 No Content", b"", 1024), Ok(Json::Str(s)) if s.is_empty()));
    assert!(matches!(
        decode_body(200, "200 OK", b"plain \xff text", 1024),
        Ok(Json::Str(s)) if s == "plain \u{FFFD} text"
    ));
}

#[test]
fn failed_answers_carry_status_and_compact_body() {
    assert_eq!(
        decode_body(404, "404 Not Found", b"{\n  \"message\": \"404 Not Found\"\n}", 1024).unwrap_err(),
        "GitLab API returned 404 Not Found: {\"message\":\"404 Not Found\"}"
    );
    assert_eq!(
        decode_body(500, "500 Internal Server Error", b"oops", 1024).unwrap_err(),
        "GitLab API returned 500 Internal Server Error: \"oops\""
    );
    assert_eq!(
        decode_body(200, "200 OK", b"12345", 4).unwrap_err(),
        "GitLab response exceeds the configured 4 byte limit"
    );
    assert!(decode_body(200, "200 OK", b"1234", 4).is_ok());
}

#[test]
fn tool_output_is_indented_json_or_the_error() {
    let doc = Json::Object(vec![("id".into(), Json::Number("42".into()))]);
    assert_eq!(tool_output(Ok(doc)).unwrap(), "{\n  \"id\": 42\n}");
    assert_eq!(tool_output(Err("boom".into())).unwrap_err(), "boom");
}

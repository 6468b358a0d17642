use bettr::domain::{IssueState, WaitKind};
use bettr::error::AppError;
use bettr::web::{
    check_web_next_state, decision_route_id, issue_filter, parse_header_line, parse_query,
    parse_request_line, parse_target, percent_decode, query_value, reason_phrase, response_head,
    route, route_error, split_words, status_code, wait_context, BlockedEvent, HeaderLine, Route,
};

fn input_message<T>(result: Result<T, AppError>) -> String {
    match result {
        Err(AppError::InvalidInput(message)) => message,
        _ => panic!("expected an invalid input error"),
    }
}

#[test]
fn database_busy_is_exposed_as_service_unavailable() {
    assert_eq!(
        status_code(&AppError::DatabaseBusy("database is busy".to_owned())),
        503
    );
}

#[test]
fn errors_map_to_http_statuses() {
    assert_eq!(status_code(&AppError::InvalidInput("x".to_owned())), 400);
    assert_eq!(status_code(&AppError::NotFound("x".to_owned())), 404);
    assert_eq!(status_code(&AppError::RevisionConflict { current_revision: 1 }), 409);
    assert_eq!(status_code(&AppError::Internal("x".to_owned())), 500);
    assert_eq!(reason_phrase(503), "Service Unavailable");
    assert_eq!(reason_phrase(418), "Unknown");
}

#[test]
fn a_response_head_names_type_and_length() {
    assert_eq!(
        response_head(200, "text/html", 12),
        "HTTP/1.1 200 OK\r\nContent-Type: text/html\r\nContent-Length: 12\r\nCache-Control: no-store\r\nConnection: close\r\n\r\n"
    );
}

#[test]
fn url_parts_are_percent_decoded() {
    assert_eq!(percent_decode("a%20b%2Fc").unwrap(), "a b/c");
    assert_eq!(percent_decode("%E2%9C%93").unwrap(), "\u{2713}");
    assert_eq!(input_message(percent_decode("%2")), "web URL contains an incomplete escape");
    assert_eq!(input_message(percent_decode("%zz")), "web URL contains an invalid escape");
    assert_eq!(input_message(percent_decode("%FF")), "web URL is not valid UTF-8");
}

#[test]
fn a_later_query_value_replaces_an_earlier_one() {
    let pairs = parse_query("project=bettr&query=a+b&project=other").unwrap();
    assert_eq!(query_value(&pairs, "project").unwrap(), "other");
    assert_eq!(query_value(&pairs, "query").unwrap(), "a b");
    assert!(query_value(&pairs, "missing").is_none());
    let (path, query) = parse_target("/api/issues?include_done=yes").unwrap();
    assert_eq!(path, "/api/issues");
    let filter = issue_filter(&query);
    assert!(filter.include_done);
    assert!(filter.projects.is_empty());
}

#[test]
fn request_lines_need_method_target_and_version() {
    assert_eq!(
        parse_request_line("GET /api/status HTTP/1.1\r\n").unwrap(),
        ("GET".to_owned(), "/api/status".to_owned())
    );
    assert_eq!(input_message(parse_request_line("\r\n")), "web request is empty");
    assert_eq!(input_message(parse_request_line("GET /")), "web request has no HTTP version");
    assert_eq!(
        input_message(parse_request_line("GET / HTTP/2")),
        "web request uses an unsupported HTTP version"
    );
    assert_eq!(split_words(" a  b\tc "), vec!["a", "b", "c"]);
}

#[test]
fn headers_give_a_bounded_content_length() {
    assert_eq!(parse_header_line("\r\n", None).unwrap(), HeaderLine::End);
    assert_eq!(
        parse_header_line("Content-Length: 12\r\n", None).unwrap(),
        HeaderLine::ContentLength(12)
    );
    assert_eq!(parse_header_line("Host: x\r\n", None).unwrap(), HeaderLine::Other);
    assert_eq!(
        input_message(parse_header_line("content-length: 3\r\n", Some(3))),
        "web request has duplicate content-length headers"
    );
    assert_eq!(
        input_message(parse_header_line("Content-Length: 70000\r\n", None)),
        "web request body is too large"
    );
    assert_eq!(
        input_message(parse_header_line("Transfer-Encoding: chunked\r\n", None)),
        "web request transfer-encoding is unsupported"
    );
    assert_eq!(input_message(parse_header_line("nonsense\r\n", None)), "web request has an invalid header");
}

#[test]
fn requests_are_routed_by_method_and_path() {
    let none = Vec::new();
    assert!(matches!(route("GET", "/", &none), Route::Index));
    assert!(matches!(route("GET", "/api/status", &none), Route::Status));
    assert!(matches!(route("DELETE", "/", &none), Route::MethodNotAllowed));
    assert!(matches!(route("POST", "/api/decisions/x/resolve", &none), Route::ResolveDecision));
    let project = parse_query("project=bettr").unwrap();
    match route("GET", "/api/issues/12", &project) {
        Route::IssueDetail { number, project } => {
            assert_eq!(number, 12);
            assert_eq!(project, "bettr");
        }
        _ => panic!("expected an issue detail route"),
    }
    let missing = route("GET", "/api/issues/12", &none);
    assert!(matches!(missing, Route::MissingProject));
    assert!(matches!(route_error(&missing), Some((400, AppError::InvalidInput(_)))));
    let unknown = route("GET", "/nowhere", &none);
    assert!(matches!(route_error(&unknown), Some((404, AppError::NotFound(_)))));
    assert!(route_error(&Route::Index).is_none());
    assert_eq!(decision_route_id("/api/decisions/abc/resolve"), Some("abc".to_owned()));
    assert_eq!(decision_route_id("/api/decisions/a/b/resolve"), None);
}

#[test]
fn the_web_resolution_cannot_resume_directly() {
    assert!(check_web_next_state(IssueState::InProgress).is_err());
    assert!(check_web_next_state(IssueState::Done).is_ok());
}

#[test]
fn waits_prefer_a_human_decision_then_the_recorded_block() {
    let human = wait_context(true, IssueState::Todo, None, false).unwrap();
    assert_eq!(human.kind, Some(WaitKind::Human));
    assert_eq!(human.label, "Human decision");
    assert!(wait_context(false, IssueState::Todo, None, true).is_none());
    let recorded = wait_context(
        false,
        IssueState::Blocked,
        Some(BlockedEvent {
            wait_kind: Some(WaitKind::External),
            reason: Some("waiting on CI".to_owned()),
        }),
        true,
    )
    .unwrap();
    assert_eq!(recorded.label, "External system");
    assert_eq!(recorded.reason, "waiting on CI");
    let dependency = wait_context(false, IssueState::Blocked, None, true).unwrap();
    assert_eq!(dependency.kind, Some(WaitKind::Dependency));
    assert_eq!(dependency.reason, "Waiting for a blocking dependency");
}

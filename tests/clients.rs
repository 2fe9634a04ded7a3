use hotln::client::{api_result, direct, proxy, DirectClient, ProxyClient};
use hotln::http::{Error, HttpRequest, Outcome};

fn header<'a>(req: &'a HttpRequest, name: &str) -> Vec<&'a str> {
    req.headers.iter().filter(|(n, _)| n == name).map(|(_, v)| v.as_str()).collect()
}

fn received(text: &str) -> Outcome {
    Outcome::Received(text.to_string())
}

#[test]
fn test_graphql_request_success() {
    let client = direct("test-key", "team", "project");
    let req = client.create_issue_request("test", None, &[]);
    assert_eq!(header(&req, "Content-Type"), vec!["application/json"]);
    let body = r#"{"data":{"issueCreate":{"success":true,"issue":{"id":"abc-123","identifier":"EMP-42","url":"https://linear.app/empathic/issue/EMP-42"}}}}"#;
    let url = DirectClient::create_issue_result(received(body)).unwrap();
    assert_eq!(url, "https://linear.app/empathic/issue/EMP-42");
}

#[test]
fn test_graphql_request_error() {
    let body = r#"{"errors":[{"message":"Invalid input"}]}"#;
    let result = DirectClient::create_issue_result(received(body));
    assert!(result.is_err());
    match result.unwrap_err() {
        Error::Api(m) => {
            assert!(m.contains("Linear API error"));
            assert!(m.contains("Invalid input"));
        }
        other => panic!("expected Api error, got: {:?}", other),
    }
}

#[test]
fn test_proxy_create_issue() {
    let client = proxy("http://relay.example");
    let req = client.create_issue_request("Bug Report: test", Some("desc"), &[]);
    assert_eq!(req.url, "http://relay.example");
    assert_eq!(header(&req, "Content-Type"), vec!["application/json"]);
    let url = ProxyClient::create_issue_result(received(
        r#"{"url":"https://linear.app/empathic/issue/EMP-99"}"#,
    ))
    .unwrap();
    assert_eq!(url, "https://linear.app/empathic/issue/EMP-99");
}

#[test]
fn test_proxy_with_token() {
    let client = proxy("http://relay.example").with_token("my-secret-token");
    let req = client.create_issue_request("Bug Report: auth test", Some("desc"), &[]);
    assert_eq!(header(&req, "Authorization"), vec!["Bearer my-secret-token"]);
    assert_eq!(header(&req, "Content-Type"), vec!["application/json"]);
    let url = ProxyClient::create_issue_result(received(
        r#"{"url":"https://linear.app/empathic/issue/EMP-100"}"#,
    ))
    .unwrap();
    assert_eq!(url, "https://linear.app/empathic/issue/EMP-100");
}

#[test]
fn test_proxy_error() {
    let client = proxy("http://relay.example");
    let _req = client.create_issue_request("Bug Report: test", Some("desc"), &[]);
    let result = ProxyClient::create_issue_result(Outcome::Status {
        code: 429,
        body: "rate limited".to_string(),
    });
    assert!(result.is_err());
    match result.unwrap_err() {
        Error::Proxy { status, body } => {
            assert_eq!(status, 429);
            assert_eq!(body, "rate limited");
        }
        other => panic!("expected Proxy error, got: {:?}", other),
    }
}

#[test]
fn direct_success_returns_exact_url() {
    let body = r#"{"data":{"issueCreate":{"issue":{"id":"abc-123","identifier":"EMP-42","url":"https://x/EMP-42"}}}}"#;
    assert_eq!(DirectClient::create_issue_result(received(body)).unwrap(), "https://x/EMP-42");
    assert_eq!(DirectClient::issue_identifier(body), "EMP-42");
}

#[test]
fn direct_errors_message_quotes_the_field() {
    let body = r#"{"errors":[{"message":"Invalid input"}]}"#;
    match DirectClient::create_issue_result(received(body)) {
        Err(Error::Api(m)) => {
            assert_eq!(m, r#"Linear API error: [{"message":"Invalid input"}]"#)
        }
        other => panic!("expected Api error, got: {:?}", other),
    }
}

#[test]
fn direct_errors_win_over_a_url() {
    let body = r#"{"errors":[],"data":{"issueCreate":{"issue":{"url":"u"}}}}"#;
    assert!(matches!(DirectClient::create_issue_result(received(body)), Err(Error::Api(_))));
}

#[test]
fn direct_status_is_api_error_with_code_and_body() {
    let result = DirectClient::create_issue_result(Outcome::Status {
        code: 500,
        body: "oops".to_string(),
    });
    match result {
        Err(Error::Api(m)) => assert_eq!(m, "500: oops"),
        other => panic!("expected Api error, got: {:?}", other),
    }
}

#[test]
fn direct_missing_url_is_parse_error() {
    let body = r#"{"data":{"issueCreate":{"issue":{"identifier":"EMP-1","url":7}}}}"#;
    match DirectClient::create_issue_result(received(body)) {
        Err(Error::Parse(m)) => assert_eq!(m, "Linear response missing issue url"),
        other => panic!("expected Parse error, got: {:?}", other),
    }
}

#[test]
fn direct_missing_identifier_is_unknown() {
    let body = r#"{"data":{"issueCreate":{"issue":{"url":"https://x/1"}}}}"#;
    assert_eq!(DirectClient::issue_identifier(body), "unknown");
    assert_eq!(DirectClient::create_issue_result(received(body)).unwrap(), "https://x/1");
    assert_eq!(DirectClient::issue_identifier("not json"), "unknown");
}

#[test]
fn malformed_json_is_parse_error() {
    assert!(matches!(DirectClient::create_issue_result(received("{oops")), Err(Error::Parse(m)) if !m.is_empty()));
    assert!(matches!(ProxyClient::create_issue_result(received("")), Err(Error::Parse(m)) if !m.is_empty()));
}

#[test]
fn unreadable_body_is_parse_error() {
    let r = ProxyClient::create_issue_result(Outcome::Unreadable("bad utf-8".to_string()));
    assert!(matches!(r, Err(Error::Parse(m)) if m == "bad utf-8"));
}

#[test]
fn proxy_missing_url_is_parse_error() {
    match ProxyClient::create_issue_result(received(r#"{"link":"x"}"#)) {
        Err(Error::Parse(m)) => assert_eq!(m, "proxy response missing url"),
        other => panic!("expected Parse error, got: {:?}", other),
    }
}

#[test]
fn direct_request_wire_shape() {
    let client = direct("lin_api_k", "team-1", "proj-2");
    let req = client.create_issue_request("crash \"now\"", Some("a\nb"), &[("OS", "linux")]);
    assert_eq!(req.url, "https://api.linear.app/graphql");
    assert_eq!(
        req.headers,
        vec![
            ("Authorization".to_string(), "lin_api_k".to_string()),
            ("Content-Type".to_string(), "application/json".to_string()),
        ]
    );
    let v: serde_json::Value = serde_json::from_str(&req.body).unwrap();
    let input = &v["variables"]["input"];
    assert_eq!(input["teamId"], "team-1");
    assert_eq!(input["projectId"], "proj-2");
    assert_eq!(input["title"], "crash \"now\"");
    assert_eq!(
        input["description"],
        "a\nb\n\n## System Info\n\n| Field | Value |\n|-------|-------|\n| OS | linux |"
    );
    assert!(v["query"].as_str().unwrap().starts_with("mutation IssueCreate($input: IssueCreateInput!)"));
    assert!(req.body.contains(r#""title":"crash \"now\"""#));
}

#[test]
fn proxy_request_wire_shape() {
    let req = proxy("https://relay/x").create_issue_request("t\\1", None, &[]);
    assert_eq!(req.body, r#"{"description":"","title":"t\\1"}"#);
    assert_eq!(
        req.headers,
        vec![("Content-Type".to_string(), "application/json".to_string())]
    );
}

#[test]
fn without_token_no_authorization_header() {
    let req = proxy("https://relay").create_issue_request("t", Some("d"), &[]);
    assert!(header(&req, "Authorization").is_empty());
}

#[test]
fn token_is_sent_on_every_request() {
    let client = proxy("https://relay").with_token("t");
    for title in ["a", "b"] {
        let req = client.create_issue_request(title, None, &[]);
        assert_eq!(header(&req, "Authorization"), vec!["Bearer t"]);
    }
}

#[test]
fn second_token_replaces_first() {
    let client = proxy("https://relay").with_token("one").with_token("two");
    let req = client.create_issue_request("t", None, &[]);
    assert_eq!(header(&req, "Authorization"), vec!["Bearer two"]);
    assert_eq!(req.url, "https://relay");
}

#[test]
fn api_result_decides_in_order() {
    assert!(matches!(api_result(Some("[1]".to_string()), Some("u")), Err(Error::Api(m)) if m == "Linear API error: [1]"));
    assert_eq!(api_result(None, Some("u")).unwrap(), "u");
    assert!(matches!(api_result(None, None), Err(Error::Parse(_))));
}

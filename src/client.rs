//! The two ways of filing an issue: directly against the tracker's GraphQL
//! API, or through a relay. Each client builds the request for a report and
//! turns the transport's outcome into the new issue's URL or an error.

use vstd::prelude::*;
use crate::format::{format_description, opt_view, pairs_view, rendered};
use crate::http::{decimal, append_decimal, headers_view, Error, HttpRequest, Outcome};
use crate::json::{
    append_quoted, error_text, json_error_text, json_member, json_str_at, json_text, member,
    parse_json, parsed_json, quoted, str_at, to_text,
};

verus! {

/// A client that calls the tracker's GraphQL API directly with an API key.
pub struct DirectClient {
    api_key: String,
    team_id: String,
    project_id: String,
}

/// A client that posts bug reports to a relay URL.
pub struct ProxyClient {
    url: String,
    token: Option<String>,
}

/// What a `DirectClient` holds.
pub struct DirectConfig {
    pub api_key: Seq<char>,
    pub team_id: Seq<char>,
    pub project_id: Seq<char>,
}

/// What a `ProxyClient` holds.
pub struct ProxyConfig {
    pub url: Seq<char>,
    pub token: Option<Seq<char>>,
}

impl View for DirectClient {
    type V = DirectConfig;

    closed spec fn view(&self) -> DirectConfig {
        DirectConfig {
            api_key: self.api_key@,
            team_id: self.team_id@,
            project_id: self.project_id@,
        }
    }
}

impl View for ProxyClient {
    type V = ProxyConfig;

    closed spec fn view(&self) -> ProxyConfig {
        ProxyConfig {
            url: self.url@,
            token: match self.token {
                Some(t) => Some(t@),
                None => None,
            },
        }
    }
}

/// The tracker's GraphQL endpoint.
pub open spec fn graphql_endpoint() -> Seq<char> {
    "https://api.linear.app/graphql"@
}

/// The mutation that creates an issue.
pub open spec fn issue_create_mutation() -> Seq<char> {
    "mutation IssueCreate($input: IssueCreateInput!) {\n            issueCreate(input: $input) {\n                success\n                issue {\n                    id\n                    identifier\n                    url\n                }\n            }\n        }"@
}

/// The header that marks a JSON body.
pub open spec fn json_content_type() -> (Seq<char>, Seq<char>) {
    ("Content-Type"@, "application/json"@)
}

/// The headers of a direct request: the raw API key, then the content type.
pub open spec fn direct_headers(c: DirectConfig) -> Seq<(Seq<char>, Seq<char>)> {
    seq![("Authorization"@, c.api_key), json_content_type()]
}

/// The body of a direct request: the mutation and its input, with the keys
/// of each object in sorted order.
pub open spec fn direct_body(c: DirectConfig, title: Seq<char>, description: Seq<char>) -> Seq<char> {
    "{\"query\":"@ + quoted(issue_create_mutation()) + ",\"variables\":{\"input\":{\"description\":"@
        + quoted(description) + ",\"projectId\":"@ + quoted(c.project_id) + ",\"teamId\":"@
        + quoted(c.team_id) + ",\"title\":"@ + quoted(title) + "}}}"@
}

/// The settings of a relay client once `token` is its bearer token.
pub open spec fn with_token_config(c: ProxyConfig, token: Seq<char>) -> ProxyConfig {
    ProxyConfig { url: c.url, token: Some(token) }
}

/// The headers of a relay request: the content type, then a bearer token if
/// one is set.
pub open spec fn proxy_headers(c: ProxyConfig) -> Seq<(Seq<char>, Seq<char>)> {
    match c.token {
        Some(t) => seq![json_content_type(), ("Authorization"@, "Bearer "@ + t)],
        None => seq![json_content_type()],
    }
}

/// The body of a relay request: title and description only.
pub open spec fn proxy_body(title: Seq<char>, description: Seq<char>) -> Seq<char> {
    "{\"description\":"@ + quoted(description) + ",\"title\":"@ + quoted(title) + "}"@
}

/// Where the new issue's URL stands in a direct response.
pub open spec fn issue_url_path() -> Seq<Seq<char>> {
    seq!["data"@, "issueCreate"@, "issue"@, "url"@]
}

/// Where the new issue's identifier stands in a direct response.
pub open spec fn issue_identifier_path() -> Seq<Seq<char>> {
    seq!["data"@, "issueCreate"@, "issue"@, "identifier"@]
}

/// The message of an `Api` error for a response with an `errors` field.
pub open spec fn api_errors_message(errors: Seq<char>) -> Seq<char> {
    "Linear API error: "@ + errors
}

/// The message of an `Api` error for a non-2xx status.
pub open spec fn api_status_message(code: u16, body: Seq<char>) -> Seq<char> {
    decimal(code as nat) + ": "@ + body
}

/// What a direct call ends in, once the response's `errors` field (as JSON
/// text, if present) and the string at the issue's URL (if any) are known.
pub open spec fn api_result_holds(
    errors: Option<Seq<char>>,
    url: Option<Seq<char>>,
    r: Result<String, Error>,
) -> bool {
    match errors {
        Some(e) => r matches Err(Error::Api(m)) && m@ == api_errors_message(e),
        None => match url {
            Some(u) => r matches Ok(s) && s@ == u,
            None => r matches Err(Error::Parse(m)) && m@ == "Linear response missing issue url"@,
        },
    }
}

/// What a direct call ends in for each outcome of its request.
pub open spec fn direct_result_holds(outcome: Outcome, r: Result<String, Error>) -> bool {
    match outcome {
        Outcome::Failed(e) => r == Err::<String, Error>(Error::Http(e)),
        Outcome::Status { code, body } => r matches Err(Error::Api(m)) && m@ == api_status_message(code, body@),
        Outcome::Unreadable(msg) => r matches Err(Error::Parse(m)) && m@ == msg@,
        Outcome::Received(text) => match parsed_json(text@) {
            Err(e) => r matches Err(Error::Parse(m)) && m@ == json_error_text(e),
            Ok(v) => api_result_holds(
                match json_member(v, "errors"@) {
                    Some(errs) => Some(json_text(errs)),
                    None => None,
                },
                json_str_at(v, issue_url_path()),
                r,
            ),
        },
    }
}

/// What a relay call ends in for each outcome of its request.
pub open spec fn proxy_result_holds(outcome: Outcome, r: Result<String, Error>) -> bool {
    match outcome {
        Outcome::Failed(e) => r == Err::<String, Error>(Error::Http(e)),
        Outcome::Status { code, body } => r matches Err(Error::Proxy { status, body: b }) && status
            == code && b@ == body@,
        Outcome::Unreadable(msg) => r matches Err(Error::Parse(m)) && m@ == msg@,
        Outcome::Received(text) => match parsed_json(text@) {
            Err(e) => r matches Err(Error::Parse(m)) && m@ == json_error_text(e),
            Ok(v) => match json_str_at(v, seq!["url"@]) {
                Some(u) => r matches Ok(s) && s@ == u,
                None => r matches Err(Error::Parse(m)) && m@ == "proxy response missing url"@,
            },
        },
    }
}

/// Creates a client that calls the tracker's GraphQL API directly.
pub fn direct(api_key: &str, team_id: &str, project_id: &str) -> (r: DirectClient)
    ensures
        r@ == (DirectConfig { api_key: api_key@, team_id: team_id@, project_id: project_id@ }),
{
    DirectClient {
        api_key: String::from_str(api_key),
        team_id: String::from_str(team_id),
        project_id: String::from_str(project_id),
    }
}

/// Creates a client that posts bug reports to a relay URL, with no token.
pub fn proxy(url: &str) -> (r: ProxyClient)
    ensures
        r@ == (ProxyConfig { url: url@, token: None }),
{
    ProxyClient { url: String::from_str(url), token: None }
}

fn header(name: &str, value: &str) -> (r: (String, String))
    ensures
        r.0@ == name@,
        r.1@ == value@,
{
    (String::from_str(name), String::from_str(value))
}

/// Classifies a direct response once its `errors` field, written as JSON
/// text, and the string at the issue's URL have been read out of it.
pub fn api_result(errors: Option<String>, url: Option<&str>) -> (r: Result<String, Error>)
    ensures
        api_result_holds(
            match errors {
                Some(e) => Some(e@),
                None => None,
            },
            opt_view(url),
            r,
        ),
{
    match errors {
        Some(e) => {
            let mut m = String::from_str("Linear API error: ");
            m.append(e.as_str());
            Err(Error::Api(m))
        },
        None => match url {
            Some(u) => Ok(String::from_str(u)),
            None => Err(Error::Parse(String::from_str("Linear response missing issue url"))),
        },
    }
}

impl DirectClient {
    /// The request that files a report: a POST of the mutation to the
    /// GraphQL endpoint, authorized by the raw API key.
    pub fn create_issue_request(
        &self,
        title: &str,
        description: Option<&str>,
        system_info: &[(&str, &str)],
    ) -> (r: HttpRequest)
        ensures
            r.url@ == graphql_endpoint(),
            headers_view(r.headers@) == direct_headers(self@),
            r.body@ == direct_body(
                self@,
                title@,
                rendered(opt_view(description), pairs_view(system_info@)),
            ),
    {
        let description = format_description(description, system_info);
        let mut body = String::from_str("{\"query\":");
        append_quoted(&mut body, "mutation IssueCreate($input: IssueCreateInput!) {\n            issueCreate(input: $input) {\n                success\n                issue {\n                    id\n                    identifier\n                    url\n                }\n            }\n        }");
        body.append(",\"variables\":{\"input\":{\"description\":");
        append_quoted(&mut body, description.as_str());
        body.append(",\"projectId\":");
        append_quoted(&mut body, self.project_id.as_str());
        body.append(",\"teamId\":");
        append_quoted(&mut body, self.team_id.as_str());
        body.append(",\"title\":");
        append_quoted(&mut body, title);
        body.append("}}}");
        let mut headers: Vec<(String, String)> = Vec::new();
        headers.push(header("Authorization", self.api_key.as_str()));
        headers.push(header("Content-Type", "application/json"));
        assert(headers_view(headers@) =~= direct_headers(self@));
        HttpRequest { url: String::from_str("https://api.linear.app/graphql"), headers, body }
    }

    /// The new issue's URL, or the error that the outcome of a request made
    /// by `create_issue_request` amounts to.
    pub fn create_issue_result(outcome: Outcome) -> (r: Result<String, Error>)
        ensures
            direct_result_holds(outcome, r),
    {
        match outcome {
            Outcome::Failed(e) => Err(Error::Http(e)),
            Outcome::Status { code, body } => {
                let mut m = String::new();
                append_decimal(&mut m, code);
                m.append(": ");
                m.append(body.as_str());
                Err(Error::Api(m))
            },
            Outcome::Unreadable(msg) => Err(Error::Parse(msg)),
            Outcome::Received(text) => match parse_json(text.as_str()) {
                Err(e) => Err(Error::Parse(error_text(&e))),
                Ok(v) => {
                    let errors = match member(&v, "errors") {
                        Some(errs) => Some(to_text(errs)),
                        None => None,
                    };
                    let path: [&str; 4] = ["data", "issueCreate", "issue", "url"];
                    let url = str_at(&v, &path);
                    assert(path@.map_values(|k: &str| k@) =~= issue_url_path());
                    api_result(errors, url)
                },
            },
        }
    }

    /// The identifier of the issue that a direct response reports, or
    /// `unknown` where it reports none.
    pub fn issue_identifier(text: &str) -> (r: String)
        ensures
            r@ == match parsed_json(text@) {
                Ok(v) => match json_str_at(v, issue_identifier_path()) {
                    Some(i) => i,
                    None => "unknown"@,
                },
                Err(_) => "unknown"@,
            },
    {
        match parse_json(text) {
            Ok(v) => {
                let path: [&str; 4] = ["data", "issueCreate", "issue", "identifier"];
                let found = str_at(&v, &path);
                assert(path@.map_values(|k: &str| k@) =~= issue_identifier_path());
                match found {
                    Some(i) => String::from_str(i),
                    None => String::from_str("unknown"),
                }
            },
            Err(_) => String::from_str("unknown"),
        }
    }
}

impl ProxyClient {
    /// The same client with `token` as its bearer token, in place of any
    /// token it had.
    pub fn with_token(self, token: &str) -> (r: Self)
        ensures
            r@ == with_token_config(self@, token@),
    {
        ProxyClient { url: self.url, token: Some(String::from_str(token)) }
    }

    /// The request that files a report: a POST of the title and rendered
    /// description to the relay, with the bearer token if one is set.
    pub fn create_issue_request(
        &self,
        title: &str,
        description: Option<&str>,
        system_info: &[(&str, &str)],
    ) -> (r: HttpRequest)
        ensures
            r.url@ == self@.url,
            headers_view(r.headers@) == proxy_headers(self@),
            r.body@ == proxy_body(title@, rendered(opt_view(description), pairs_view(system_info@))),
    {
        let description = format_description(description, system_info);
        let mut body = String::from_str("{\"description\":");
        append_quoted(&mut body, description.as_str());
        body.append(",\"title\":");
        append_quoted(&mut body, title);
        body.append("}");
        let mut headers: Vec<(String, String)> = Vec::new();
        headers.push(header("Content-Type", "application/json"));
        match &self.token {
            Some(t) => {
                let mut value = String::from_str("Bearer ");
                value.append(t.as_str());
                headers.push((String::from_str("Authorization"), value));
            },
            None => {},
        }
        assert(headers_view(headers@) =~= proxy_headers(self@));
        HttpRequest { url: self.url.clone(), headers, body }
    }

    /// The new issue's URL, or the error that the outcome of a request made
    /// by `create_issue_request` amounts to.
    pub fn create_issue_result(outcome: Outcome) -> (r: Result<String, Error>)
        ensures
            proxy_result_holds(outcome, r),
    {
        match outcome {
            Outcome::Failed(e) => Err(Error::Http(e)),
            Outcome::Status { code, body } => Err(Error::Proxy { status: code, body }),
            Outcome::Unreadable(msg) => Err(Error::Parse(msg)),
            Outcome::Received(text) => match parse_json(text.as_str()) {
                Err(e) => Err(Error::Parse(error_text(&e))),
                Ok(v) => {
                    let path: [&str; 1] = ["url"];
                    let url = str_at(&v, &path);
                    assert(path@.map_values(|k: &str| k@) =~= seq!["url"@]);
                    match url {
                        Some(u) => Ok(String::from_str(u)),
                        None => Err(Error::Parse(String::from_str("proxy response missing url"))),
                    }
                },
            },
        }
    }
}

/// A relay client given a token sends `Authorization: Bearer <token>` with
/// every request it builds; one never given a token sends no
/// `Authorization` header at all.
pub proof fn lemma_bearer_header(c: ProxyConfig, token: Seq<char>)
    ensures
        proxy_headers(with_token_config(c, token)).contains(("Authorization"@, "Bearer "@ + token)),
        forall|i: int|
            0 <= i < proxy_headers(ProxyConfig { url: c.url, token: None }).len()
                ==> #[trigger] proxy_headers(ProxyConfig { url: c.url, token: None })[i].0
                != "Authorization"@,
{
    let h = proxy_headers(with_token_config(c, token));
    assert(h[1] == ("Authorization"@, "Bearer "@ + token));
    reveal_strlit("Authorization");
    reveal_strlit("Content-Type");
    assert("Content-Type"@[0] != "Authorization"@[0]);
}

/// Setting a token twice leaves only the second: the client is the one that
/// the second token alone would give, and its requests carry that token.
pub proof fn lemma_last_token_wins(c: ProxyConfig, first: Seq<char>, second: Seq<char>)
    ensures
        with_token_config(with_token_config(c, first), second) == with_token_config(c, second),
        proxy_headers(with_token_config(with_token_config(c, first), second)) == seq![
            json_content_type(),
            ("Authorization"@, "Bearer "@ + second),
        ],
{
}

} // verus!

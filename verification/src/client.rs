//! The Apify API client: what each request carries, how an HTTP status
//! becomes an [`Error`], and how a response body becomes a document.

use vstd::prelude::*;
use vstd::utf8::{valid_utf8, decode_utf8};
use crate::error::{Error, ErrorCode, ErrorView, exit_status, plain_error};
use crate::text::{decimal, is_blank, is_blank_str, push_decimal, trim, trimmed, chars_of};

verus! {

/// The Apify API root used when no override is configured.
pub const DEFAULT_BASE: &'static str = "https://api.apify.com/v2/";

/// The scraper actor endpoint that both searches and scrapes post to.
pub const ACTOR_PATH: &'static str = "acts/trudax~reddit-scraper-lite/run-sync-get-dataset-items?token=";

/// The endpoint that describes the token's owner.
pub const ME_PATH: &'static str = "users/me?token=";

#[verifier::external_type_specification]
#[verifier::external_body]
pub struct ExJsonValue(serde_json::Value);

/// Proxy settings handed to the scraper actor.
#[derive(Clone, Debug)]
pub struct ProxyConfig {
    pub use_apify_proxy: bool,
    pub apify_proxy_groups: Vec<String>,
}

/// The proxy groups a default [`ProxyConfig`] asks for.
pub open spec fn default_proxy_groups() -> Seq<Seq<char>> {
    seq!["RESIDENTIAL"@]
}

impl ProxyConfig {
    /// True of the default proxy settings: the Apify proxy, residential group only.
    pub open spec fn is_default(&self) -> bool {
        &&& self.use_apify_proxy
        &&& self.apify_proxy_groups.deep_view() == default_proxy_groups()
    }
}

impl Default for ProxyConfig {
    fn default() -> (p: ProxyConfig)
        ensures
            p.is_default(),
    {
        let p = ProxyConfig {
            use_apify_proxy: true,
            apify_proxy_groups: vec![String::from_str("RESIDENTIAL")],
        };
        assert(p.apify_proxy_groups.deep_view() =~= default_proxy_groups());
        p
    }
}

/// The scraper input for a search.
#[derive(Clone, Debug)]
pub struct SearchInput {
    pub searches: Option<Vec<String>>,
    pub search_community_name: Option<String>,
    pub search_posts: bool,
    pub search_comments: bool,
    pub search_communities: bool,
    pub search_users: bool,
    pub sort: Option<String>,
    pub time: Option<String>,
    pub include_nsfw: bool,
    pub max_items: u32,
    pub max_post_count: u32,
    pub max_comments: u32,
    pub skip_comments: bool,
    pub post_date_limit: Option<String>,
    pub comment_date_limit: Option<String>,
    pub proxy: ProxyConfig,
}

/// One URL for the scraper to start from.
#[derive(Clone, Debug)]
pub struct StartUrl {
    pub url: String,
}

/// The scraper input for scraping given URLs.
#[derive(Clone, Debug)]
pub struct ScrapeInput {
    pub start_urls: Vec<StartUrl>,
    pub skip_comments: bool,
    pub skip_user_posts: bool,
    pub skip_community: bool,
    pub max_items: u32,
    pub max_post_count: u32,
    pub max_comments: u32,
    pub max_communities_count: u32,
    pub max_user_count: u32,
    pub post_date_limit: Option<String>,
    pub comment_date_limit: Option<String>,
    pub proxy: ProxyConfig,
}

/// The HTTP verb of a request.
#[derive(Clone, Copy, Debug, PartialEq, Eq, Structural)]
pub enum Method {
    Get,
    Post,
}

/// A request to send: verb, absolute URL and header fields in order.
#[derive(Clone, Debug)]
pub struct HttpRequest {
    pub method: Method,
    pub url: String,
    pub headers: Vec<(String, String)>,
}

/// The header fields of every request made with `token`.
pub open spec fn common_headers(token: Seq<char>) -> Seq<(Seq<char>, Seq<char>)> {
    seq![("Authorization"@, "Bearer "@ + token), ("Accept"@, "application/json"@)]
}

/// The header fields of a request made with `token`, by verb.
pub open spec fn request_headers(method: Method, token: Seq<char>) -> Seq<(Seq<char>, Seq<char>)> {
    match method {
        Method::Get => common_headers(token),
        Method::Post => common_headers(token).push(("Content-Type"@, "application/json"@)),
    }
}

/// The header fields of `r`, as pairs of character sequences.
pub open spec fn header_view(r: HttpRequest) -> Seq<(Seq<char>, Seq<char>)> {
    r.headers@.map_values(|h: (String, String)| (h.0@, h.1@))
}

/// The API root chosen from the two override variables, as `Client::new` picks
/// it: the first variable that is set wins, a blank value means the default,
/// and the root always ends with `/`.
pub open spec fn chosen_base(reddit_api_url: Option<Seq<char>>, apify_api_url: Option<Seq<char>>) -> Seq<char> {
    let chosen = if reddit_api_url is Some { reddit_api_url } else { apify_api_url };
    let base = match chosen {
        Some(s) => if is_blank(s) { DEFAULT_BASE@ } else { s },
        None => DEFAULT_BASE@,
    };
    if base.len() > 0 && base.last() == '/' {
        base
    } else {
        base.push('/')
    }
}

/// Law: whatever the override variables hold, the API root ends with `/`,
/// and an override that is set and not blank is kept as its prefix.
pub proof fn lemma_base_ends_with_slash(reddit_api_url: Option<Seq<char>>, apify_api_url: Option<Seq<char>>)
    ensures
        chosen_base(reddit_api_url, apify_api_url).len() > 0,
        chosen_base(reddit_api_url, apify_api_url).last() == '/',
        ({
            let chosen = if reddit_api_url is Some { reddit_api_url } else { apify_api_url };
            chosen is Some && !is_blank(chosen->0) ==> chosen_base(reddit_api_url, apify_api_url).subrange(
                0,
                chosen->0.len() as int,
            ) == chosen->0
        }),
{
    let chosen = if reddit_api_url is Some { reddit_api_url } else { apify_api_url };
    if chosen is Some && !is_blank(chosen->0) {
        let s = chosen->0;
        if !(s.len() > 0 && s.last() == '/') {
            assert(s.push('/').subrange(0, s.len() as int) =~= s);
        } else {
            assert(s.subrange(0, s.len() as int) =~= s);
        }
    }
}

/// The API client: the API root and the token it authenticates with.
pub struct Client {
    base: String,
    token: String,
}

/// What a [`Client`] is made of.
pub struct ClientView {
    pub base: Seq<char>,
    pub token: Seq<char>,
}

impl View for Client {
    type V = ClientView;

    closed spec fn view(&self) -> ClientView {
        ClientView { base: self.base@, token: self.token@ }
    }
}

impl Client {
    /// A client for `token` (trimmed), with the API root chosen from the values
    /// of `REDDIT_API_URL` and `APIFY_API_URL` (`None` when unset).
    pub fn new(token: &str, reddit_api_url: Option<&str>, apify_api_url: Option<&str>) -> (c: Client)
        ensures
            c@.token == trimmed(token@),
            c@.base == chosen_base(reddit_api_url.deep_view(), apify_api_url.deep_view()),
    {
        let chosen = match reddit_api_url {
            Some(s) => Some(s),
            None => apify_api_url,
        };
        let mut base = match chosen {
            Some(s) => if is_blank_str(s) { String::from_str(DEFAULT_BASE) } else { String::from_str(s) },
            None => String::from_str(DEFAULT_BASE),
        };
        let cs = chars_of(base.as_str());
        let n = cs.len();
        if !(n > 0 && cs[n - 1] == '/') {
            crate::text::push_char(&mut base, '/');
        }
        Client { base, token: trim(token) }
    }

    /// The token this client authenticates with.
    pub fn token(&self) -> (r: &str)
        ensures
            r@ == self@.token,
    {
        self.token.as_str()
    }

    /// The API root, ending with `/`.
    pub fn base(&self) -> (r: &str)
        ensures
            r@ == self@.base,
    {
        self.base.as_str()
    }

    /// The absolute URL of `path`.
    pub fn url(&self, path: &str) -> (r: String)
        ensures
            r@ == self@.base + path@,
    {
        self.base.clone().concat(path)
    }

    fn request(&self, method: Method, path: &str) -> (r: HttpRequest)
        ensures
            r.method == method,
            r.url@ == self@.base + path@,
            header_view(r) == request_headers(method, self@.token),
    {
        let mut headers: Vec<(String, String)> = Vec::new();
        headers.push((String::from_str("Authorization"), String::from_str("Bearer ").concat(self.token.as_str())));
        headers.push((String::from_str("Accept"), String::from_str("application/json")));
        if method == Method::Post {
            headers.push((String::from_str("Content-Type"), String::from_str("application/json")));
        }
        let r = HttpRequest { method, url: self.url(path), headers };
        assert(header_view(r) =~= request_headers(method, self@.token));
        r
    }

    /// A GET of `path` under the API root.
    pub fn get(&self, path: &str) -> (r: HttpRequest)
        ensures
            r.method == Method::Get,
            r.url@ == self@.base + path@,
            header_view(r) == request_headers(Method::Get, self@.token),
    {
        self.request(Method::Get, path)
    }

    /// A POST of a JSON body to `path` under the API root.
    pub fn post(&self, path: &str) -> (r: HttpRequest)
        ensures
            r.method == Method::Post,
            r.url@ == self@.base + path@,
            header_view(r) == request_headers(Method::Post, self@.token),
    {
        self.request(Method::Post, path)
    }

    /// The request that runs the scraper actor; its body is the serialized
    /// [`SearchInput`] or [`ScrapeInput`].
    pub fn actor_run(&self) -> (r: HttpRequest)
        ensures
            r.method == Method::Post,
            r.url@ == self@.base + ACTOR_PATH@ + self@.token,
            header_view(r) == request_headers(Method::Post, self@.token),
    {
        let path = String::from_str(ACTOR_PATH).concat(self.token.as_str());
        let r = self.post(path.as_str());
        assert(self@.base + (ACTOR_PATH@ + self@.token) =~= self@.base + ACTOR_PATH@ + self@.token);
        r
    }

    /// The request of a search; its body is the serialized [`SearchInput`].
    pub fn search(&self) -> (r: HttpRequest)
        ensures
            r.method == Method::Post,
            r.url@ == self@.base + ACTOR_PATH@ + self@.token,
            header_view(r) == request_headers(Method::Post, self@.token),
    {
        self.actor_run()
    }

    /// The request of a scrape; its body is the serialized [`ScrapeInput`].
    pub fn scrape(&self) -> (r: HttpRequest)
        ensures
            r.method == Method::Post,
            r.url@ == self@.base + ACTOR_PATH@ + self@.token,
            header_view(r) == request_headers(Method::Post, self@.token),
    {
        self.actor_run()
    }

    /// The request that describes the token's owner.
    pub fn me(&self) -> (r: HttpRequest)
        ensures
            r.method == Method::Get,
            r.url@ == self@.base + ME_PATH@ + self@.token,
            header_view(r) == request_headers(Method::Get, self@.token),
    {
        let path = String::from_str(ME_PATH).concat(self.token.as_str());
        let r = self.get(path.as_str());
        assert(self@.base + (ME_PATH@ + self@.token) =~= self@.base + ME_PATH@ + self@.token);
        r
    }
}

/// The detail line of a failed response: the status, then the body if any.
pub open spec fn status_detail(status: u16, body: Seq<char>) -> Seq<char> {
    if body.len() == 0 {
        "HTTP "@ + decimal(status as nat)
    } else {
        "HTTP "@ + decimal(status as nat) + ": "@ + body
    }
}

/// The code that a failed response with `status` is reported under.
pub open spec fn status_code(status: u16) -> ErrorCode {
    if status == 401 || status == 403 {
        ErrorCode::AuthRequired
    } else if status == 404 {
        ErrorCode::NotFound
    } else if status == 429 {
        ErrorCode::RateLimited
    } else if status == 400 || status == 422 {
        ErrorCode::InvalidInput
    } else if status >= 500 {
        ErrorCode::Network
    } else {
        ErrorCode::Error
    }
}

/// The error that reports a response with `status` and (trimmed) `body`.
pub open spec fn status_error_view(status: u16, body: Seq<char>) -> ErrorView {
    let detail = status_detail(status, body);
    if status == 401 {
        plain_error(ErrorCode::AuthRequired, "The API token was rejected or expired."@).with_detail(
            detail,
        ).with_fix("Check your Apify token: reddit login <name> --api-key <key> --force"@)
    } else if status == 403 {
        plain_error(ErrorCode::AuthRequired, "Access denied by Apify."@).with_detail(detail).with_fix(
            "Check your Apify account permissions and subscription."@,
        )
    } else if status == 404 {
        plain_error(ErrorCode::NotFound, "The resource was not found."@).with_detail(detail)
    } else if status == 429 {
        plain_error(ErrorCode::RateLimited, "Rate limited by Apify."@).with_detail(detail).with_fix(
            "Back off before retrying."@,
        )
    } else if status == 400 || status == 422 {
        plain_error(ErrorCode::InvalidInput, "The API refused the request."@).with_detail(detail)
    } else if status >= 500 {
        plain_error(ErrorCode::Network, "Apify returned a server error."@).with_detail(detail).with_fix(
            "Retry; if it persists, check Apify status at https://status.apify.com"@,
        )
    } else {
        plain_error(ErrorCode::Error, "The request failed."@).with_detail(detail)
    }
}

/// Law: how a failed response is classified, by status, with the exit status
/// an agent sees: a rejected or forbidden token is `auth_required` (3), a
/// missing resource `not_found` (4), a rate limit `rate_limited` (5), a refused
/// request `invalid_input` (6), every server error from 500 up `network` (2),
/// and any other failure `error` (1). The detail always names the status, and
/// carries the body only when there is one.
pub proof fn lemma_status_classification(status: u16, body: Seq<char>)
    ensures
        status_error_view(status, body).code == status_code(status),
        status >= 500 ==> status_error_view(status, body).code == ErrorCode::Network
            && exit_status(status_error_view(status, body).code) == 2
            && status_error_view(status, body).message == "Apify returned a server error."@,
        (status == 401 || status == 403) ==> status_error_view(status, body).code == ErrorCode::AuthRequired
            && exit_status(status_error_view(status, body).code) == 3,
        status == 404 ==> status_error_view(status, body).code == ErrorCode::NotFound
            && exit_status(status_error_view(status, body).code) == 4,
        status == 429 ==> status_error_view(status, body).code == ErrorCode::RateLimited
            && exit_status(status_error_view(status, body).code) == 5,
        (status == 400 || status == 422) ==> status_error_view(status, body).code == ErrorCode::InvalidInput
            && exit_status(status_error_view(status, body).code) == 6,
        (status < 500 && status != 400 && status != 401 && status != 403 && status != 404 && status != 422
            && status != 429) ==> status_error_view(status, body).code == ErrorCode::Error
            && exit_status(status_error_view(status, body).code) == 1,
        status_error_view(status, body).detail == Some(
            if body.len() == 0 {
                "HTTP "@ + decimal(status as nat)
            } else {
                "HTTP "@ + decimal(status as nat) + ": "@ + body
            },
        ),
{
}

/// The error for a response that came back with `status` and `body`.
pub fn status_error(status: u16, body: &str) -> (e: Error)
    ensures
        e@ == status_error_view(status, body@),
        e.code == status_code(status),
{
    let mut detail = String::from_str("HTTP ");
    push_decimal(&mut detail, status as u64);
    if !body.is_empty() {
        detail.append(": ");
        detail.append(body);
    }
    assert(detail@ =~= status_detail(status, body@));
    let d = detail.as_str();
    if status == 401 {
        Error::new(ErrorCode::AuthRequired, "The API token was rejected or expired.").detail(d).fix(
            "Check your Apify token: reddit login <name> --api-key <key> --force",
        )
    } else if status == 403 {
        Error::new(ErrorCode::AuthRequired, "Access denied by Apify.").detail(d).fix(
            "Check your Apify account permissions and subscription.",
        )
    } else if status == 404 {
        Error::new(ErrorCode::NotFound, "The resource was not found.").detail(d)
    } else if status == 429 {
        Error::new(ErrorCode::RateLimited, "Rate limited by Apify.").detail(d).fix(
            "Back off before retrying.",
        )
    } else if status == 400 || status == 422 {
        Error::new(ErrorCode::InvalidInput, "The API refused the request.").detail(d)
    } else if status >= 500 {
        Error::new(ErrorCode::Network, "Apify returned a server error.").detail(d).fix(
            "Retry; if it persists, check Apify status at https://status.apify.com",
        )
    } else {
        Error::new(ErrorCode::Error, "The request failed.").detail(d)
    }
}

/// How a request failed to reach the API.
#[derive(Clone, Debug)]
pub enum TransportFailure {
    /// The request ran out of time.
    Timeout,
    /// Any other failure, with its description.
    Other(String),
}

/// The error that reports a transport failure.
pub open spec fn transport_error_view(failure: TransportFailure) -> ErrorView {
    match failure {
        TransportFailure::Timeout => plain_error(ErrorCode::Network, "The request timed out."@).with_fix(
            "Retry once, then stop."@,
        ),
        TransportFailure::Other(d) => plain_error(
            ErrorCode::Network,
            "Could not reach the Apify API."@,
        ).with_detail(d@).with_fix("Retry once, then stop."@),
    }
}

/// The error for a request that did not reach the API.
pub fn transport_error(failure: TransportFailure) -> (e: Error)
    ensures
        e@ == transport_error_view(failure),
{
    match failure {
        TransportFailure::Timeout => Error::new(ErrorCode::Network, "The request timed out.").fix(
            "Retry once, then stop.",
        ),
        TransportFailure::Other(d) => Error::new(ErrorCode::Network, "Could not reach the Apify API.").detail(
            d.as_str(),
        ).fix("Retry once, then stop."),
    }
}

/// What `String::from_utf8_lossy` makes of `bytes`.
pub uninterp spec fn utf8_lossy(bytes: Seq<u8>) -> Seq<char>;

/// Decodes `bytes` as UTF-8, replacing each invalid sequence with U+FFFD
/// (std `String::from_utf8_lossy`). The contract names the result and, as the
/// std documentation promises, says that valid UTF-8 is decoded as it is.
#[verifier::external_body]
fn decode_lossy(bytes: &[u8]) -> (s: String)
    ensures
        s@ == utf8_lossy(bytes@),
        valid_utf8(bytes@) ==> s@ == decode_utf8(bytes@),
{
    String::from_utf8_lossy(bytes).into_owned()
}

/// What `serde_json::from_slice` makes of `bytes` as one JSON value: the value,
/// or `None` where it refuses them.
pub uninterp spec fn json_value(bytes: Seq<u8>) -> Option<serde_json::Value>;

/// Parses `bytes` as one JSON document (`serde_json::from_slice` into a
/// `serde_json::Value`). The contract ties the result to the bytes through a
/// name; what the value holds is not stated, since the value is opaque here.
#[verifier::external_body]
fn parse_json(bytes: &[u8]) -> (v: Option<serde_json::Value>)
    ensures
        v == json_value(bytes@),
{
    serde_json::from_slice::<serde_json::Value>(bytes).ok()
}

/// What a successful response holds.
pub enum Document {
    /// The body was empty or white space only: an empty JSON object.
    EmptyObject,
    /// The body parsed as JSON.
    Json(serde_json::Value),
    /// The body did not parse as JSON: its text.
    Text(String),
}

/// Whether `b` is ASCII white space (`u8::is_ascii_whitespace`).
pub open spec fn is_ascii_space(b: u8) -> bool {
    b == 0x20 || b == 0x09 || b == 0x0a || b == 0x0c || b == 0x0d
}

/// Whether every byte of `bytes` is ASCII white space.
pub open spec fn all_ascii_space(bytes: Seq<u8>) -> bool {
    forall|i: int| 0 <= i < bytes.len() ==> #[trigger] is_ascii_space(bytes[i])
}

/// Whether `status` is a success (2xx).
pub open spec fn is_success(status: u16) -> bool {
    200 <= status < 300
}

fn all_space(bytes: &[u8]) -> (r: bool)
    ensures
        r == all_ascii_space(bytes@),
{
    let mut i: usize = 0;
    while i < bytes.len()
        invariant
            i <= bytes@.len(),
            forall|k: int| 0 <= k < i ==> #[trigger] is_ascii_space(bytes@[k]),
        decreases bytes@.len() - i,
    {
        let b = bytes[i];
        if !(b == 0x20 || b == 0x09 || b == 0x0a || b == 0x0c || b == 0x0d) {
            assert(!is_ascii_space(bytes@[i as int]));
            return false;
        }
        i = i + 1;
    }
    true
}

/// Turns a response (status and body) into a document or an error: a failed
/// status becomes the error for it with the trimmed body text, an empty body an
/// empty object, a JSON body its value, and any other body its text.
pub fn read(status: u16, bytes: &[u8]) -> (r: Result<Document, Error>)
    ensures
        !is_success(status) ==> (r matches Err(e) && e@ == status_error_view(
            status,
            trimmed(utf8_lossy(bytes@)),
        )),
        is_success(status) && all_ascii_space(bytes@) ==> r matches Ok(Document::EmptyObject),
        is_success(status) && !all_ascii_space(bytes@) ==> match r {
            Ok(Document::Json(v)) => json_value(bytes@) == Some(v),
            Ok(Document::Text(t)) => json_value(bytes@) is None && t@ == utf8_lossy(bytes@),
            _ => false,
        },
{
    if !(200 <= status && status < 300) {
        let text = decode_lossy(bytes);
        let body = trim(text.as_str());
        return Err(status_error(status, body.as_str()));
    }
    if all_space(bytes) {
        return Ok(Document::EmptyObject);
    }
    match parse_json(bytes) {
        Some(v) => Ok(Document::Json(v)),
        None => Ok(Document::Text(decode_lossy(bytes))),
    }
}

} // verus!

//! The command-level scenarios, exercised through the library calls that
//! make up each command.

use reddit_cli::account::identity;
use reddit_cli::account::{resolve, resolve_next, ResolveEvent, ResolveStep, Resolved};
use reddit_cli::accounts::{check_add, key_status, require_account, require_key, KeyStatus};
use reddit_cli::cli::{ScrapeArgs, SearchArgs};
use reddit_cli::client::{read, Client, Document};
use reddit_cli::commands::scrape::scrape_input;
use reddit_cli::commands::search::search_input;
use reddit_cli::config::{AccountConfig, Config};
use reddit_cli::error::{Error, ErrorCode};
use reddit_cli::json::JsonValue;
use reddit_cli::readme;

const MOCK_BASE: &str = "http://127.0.0.1:9/v2/";

const SCRAPER_BODY: &str = r#"[{"id":"t3_12345","title":"Rust Edition 2024 is awesome","community":"r/rust","author":"ferris","score":100}]"#;

fn me_document() -> JsonValue {
    JsonValue::Object(vec![(
        "data".to_string(),
        JsonValue::Object(vec![
            ("id".to_string(), JsonValue::Str("usr_test123".to_string())),
            ("username".to_string(), JsonValue::Str("redditdev".to_string())),
            ("email".to_string(), JsonValue::Str("dev@example.com".to_string())),
        ]),
    )])
}

fn search_args(query: &str) -> SearchArgs {
    SearchArgs {
        query: query.to_string(),
        community: None,
        comments: false,
        communities: false,
        users: false,
        sort: "new".to_string(),
        time: None,
        max_items: 10,
        max_posts: 10,
        max_comments: 10,
        skip_comments: false,
        nsfw: false,
        since: None,
        comments_since: None,
    }
}

fn finish(step: ResolveStep) -> Result<Resolved, Error> {
    match step {
        ResolveStep::Done(r) => r,
        _ => panic!("the resolution asked for more"),
    }
}

fn scraped(doc: Document) -> serde_json::Value {
    match doc {
        Document::Json(v) => v,
        _ => panic!("not a JSON document"),
    }
}

fn work_config() -> Config {
    let mut config = Config::new();
    config.insert("work".to_string(), AccountConfig { identity: identity::describe(&me_document()) });
    config
}

#[test]
fn agent_readme() {
    assert!(readme::README.contains("# reddit - agent operating manual"));
    assert_eq!(readme::TOOL, "reddit");
    assert_eq!(readme::API_VERSION, "1.0.0");
    assert_eq!(readme::rules().len(), 6);
    let table = readme::exit_table();
    assert_eq!(table[0], ("0".to_string(), "ok".to_string()));
}

#[test]
fn parse_error_envelope() {
    let err = Error::invalid("unrecognized subcommand 'nonexistent-command'");
    assert_eq!(err.exit_code(), 6);
    assert_eq!(err.code.name(), "invalid_input");
}

#[test]
fn accounts_lifecycle() {
    let mut config = work_config();
    assert_eq!(config.len(), 1);
    assert_eq!(config.sorted()[0].1.identity, "redditdev");
    assert_eq!(key_status(true, None).name(), "stored");
    assert_eq!(key_status(true, Some(true)).name(), "valid");

    let err = check_add(&config, "WORK", false).unwrap_err();
    assert_eq!(err.exit_code(), 6);
    assert!(err.remediation.unwrap().contains("--force"));

    let (name, account) = require_account(&config, "work").unwrap();
    assert_eq!(name, "work");
    assert!(require_key(&name, Some("apify_token_123".to_string())).is_ok());
    assert_eq!(key_status(true, Some(true)), KeyStatus::Valid);
    assert_eq!(account.identity, "redditdev");

    assert!(config.remove("work"));
    assert_eq!(config.len(), 0);
}

#[test]
fn search_with_api_key_flag() {
    let resolved = finish(resolve(None, Some("direct_token_abc"))).unwrap();
    assert_eq!(resolved.name, "direct");
    let client = resolved.client(Some(MOCK_BASE), None);

    let mut args = search_args("rust");
    args.community = Some("rust".to_string());
    args.max_items = 5;
    let input = search_input(args);
    assert_eq!(input.searches.as_ref().unwrap()[0], "rust");
    assert_eq!(input.search_community_name.as_deref(), Some("rust"));
    assert_eq!(input.max_items, 5);

    let request = client.search();
    let path = request.url.strip_prefix(MOCK_BASE).unwrap();
    assert!(path.starts_with("acts/trudax~reddit-scraper-lite/run-sync-get-dataset-items"));

    let out = scraped(read(200, SCRAPER_BODY.as_bytes()).unwrap());
    assert!(out.is_array());
    assert_eq!(out[0]["title"], "Rust Edition 2024 is awesome");
}

#[test]
fn search_with_account() {
    let step = resolve(Some("work"), None);
    let state = match step {
        ResolveStep::LoadConfig(s) => s,
        _ => panic!("the configuration was not asked for"),
    };
    let step = resolve_next(state, ResolveEvent::ConfigLoaded(work_config()));
    let (name, state) = match step {
        ResolveStep::ReadKey(name, s) => (name, s),
        _ => panic!("the key was not asked for"),
    };
    assert_eq!(name, "work");
    let resolved = finish(resolve_next(state, ResolveEvent::KeyRead(Some("apify_token_123".to_string())))).unwrap();
    assert_eq!(resolved.token, "apify_token_123");

    let input = search_input(search_args("rust"));
    assert!(input.search_posts);
    let out = scraped(read(200, SCRAPER_BODY.as_bytes()).unwrap());
    assert_eq!(out[0]["community"], "r/rust");
}

#[test]
fn scrape_post_url() {
    let resolved = finish(resolve(None, Some("tok_123"))).unwrap();
    let client = resolved.client(Some(MOCK_BASE), None);
    assert_eq!(client.token(), "tok_123");

    let input = scrape_input(ScrapeArgs {
        url: "https://www.reddit.com/r/rust/comments/123/hello/".to_string(),
        skip_comments: true,
        skip_user_posts: false,
        skip_community: false,
        max_items: 10,
        max_posts: 10,
        max_comments: 10,
        max_communities: 2,
        max_users: 2,
        since: None,
        comments_since: None,
    });
    assert_eq!(input.start_urls[0].url, "https://www.reddit.com/r/rust/comments/123/hello/");
    assert!(input.skip_comments);

    let out = scraped(read(200, SCRAPER_BODY.as_bytes()).unwrap());
    assert_eq!(out[0]["author"], "ferris");
}

#[test]
fn auth_failure_handling() {
    let body = r#"{"error":{"message":"Invalid token"}}"#;
    let err = match read(401, body.as_bytes()) {
        Err(e) => e,
        Ok(_) => panic!("a refused token was accepted"),
    };
    assert_eq!(err.exit_code(), 3);
    assert_eq!(err.code, ErrorCode::AuthRequired);
    assert_eq!(err.code.name(), "auth_required");
    let _ = Client::new("bad_token", None, None);
}

//! Edge cases of the library functions, one formula or branch at a time.

use reddit_cli::account::identity;
use reddit_cli::account::{describe, resolve, resolve_next, ResolveEvent, ResolveState, ResolveStep, Resolved};
use reddit_cli::accounts::{check_add, confirms, given_key, key_status, require_account, require_key, KeyStatus};
use reddit_cli::cli::{AccountsCommand, Cli, Command, LoginArgs, SearchArgs};
use reddit_cli::client::{read, status_error, transport_error, Client, Document, Method, ProxyConfig, TransportFailure};
use reddit_cli::commands::{run, Dispatch};
use reddit_cli::config::{name_less, AccountConfig, Config};
use reddit_cli::error::{Error, ErrorCode};
use reddit_cli::json::JsonValue;
use reddit_cli::readme;
use reddit_cli::text::{eq_ignore_case, is_blank_str, push_decimal, same_text, trim};

fn s(x: &str) -> String {
    x.to_string()
}

fn account(identity: &str) -> AccountConfig {
    AccountConfig { identity: s(identity) }
}

fn finish(step: ResolveStep) -> Result<Resolved, Error> {
    match step {
        ResolveStep::Done(r) => r,
        _ => panic!("the resolution asked for more"),
    }
}

fn await_config(step: ResolveStep) -> ResolveState {
    match step {
        ResolveStep::LoadConfig(st) => st,
        _ => panic!("expected a request for the configuration"),
    }
}

fn await_env(step: ResolveStep) -> ResolveState {
    match step {
        ResolveStep::ReadEnv(st) => st,
        _ => panic!("expected a request for the environment"),
    }
}

fn await_key(step: ResolveStep) -> (String, ResolveState) {
    match step {
        ResolveStep::ReadKey(name, st) => (name, st),
        _ => panic!("expected a request for a key"),
    }
}

fn env(apify: Option<&str>, reddit: Option<&str>) -> ResolveEvent {
    ResolveEvent::EnvRead { apify_token: apify.map(s), reddit_api_key: reddit.map(s) }
}

fn two_accounts() -> Config {
    let mut c = Config::new();
    c.insert(s("work"), account("redditdev"));
    c.insert(s("home"), account(""));
    c
}

#[test]
fn trim_removes_unicode_white_space() {
    assert_eq!(trim("  hello world \t\n"), "hello world");
    assert_eq!(trim("\u{3000}x\u{a0}"), "x");
    assert_eq!(trim("   "), "");
    assert_eq!(trim(""), "");
    assert_eq!(trim("a"), "a");
    assert!(is_blank_str(" \r\n\t"));
    assert!(!is_blank_str(" a "));
}

#[test]
fn text_comparisons() {
    assert!(eq_ignore_case("Work", "wORK"));
    assert!(!eq_ignore_case("work", "works"));
    assert!(!eq_ignore_case("é", "É"));
    assert!(same_text("abc", "abc"));
    assert!(!same_text("abc", "abd"));
    assert!(name_less("home", "work"));
    assert!(name_less("WORK", "work"));
    assert!(name_less("ab", "abc"));
    assert!(!name_less("abc", "abc"));
    assert!(!name_less("b", "a"));
}

#[test]
fn decimal_rendering() {
    for (n, text) in [(0u64, "0"), (7, "7"), (10, "10"), (401, "401"), (65535, "65535")] {
        let mut out = s("HTTP ");
        push_decimal(&mut out, n);
        assert_eq!(out, format!("HTTP {}", text));
    }
}

#[test]
fn status_error_per_status() {
    let e = status_error(401, "bad token");
    assert_eq!(e.code, ErrorCode::AuthRequired);
    assert_eq!(e.message, "The API token was rejected or expired.");
    assert_eq!(e.detail.as_deref(), Some("HTTP 401: bad token"));
    assert_eq!(e.remediation.as_deref(), Some("Check your Apify token: reddit login <name> --api-key <key> --force"));

    let e = status_error(403, "");
    assert_eq!(e.code, ErrorCode::AuthRequired);
    assert_eq!(e.detail.as_deref(), Some("HTTP 403"));
    assert_eq!(e.remediation.as_deref(), Some("Check your Apify account permissions and subscription."));

    let e = status_error(404, "gone");
    assert_eq!(e.code, ErrorCode::NotFound);
    assert_eq!(e.remediation, None);
    assert_eq!(e.exit_code(), 4);

    let e = status_error(429, "");
    assert_eq!(e.code, ErrorCode::RateLimited);
    assert_eq!(e.remediation.as_deref(), Some("Back off before retrying."));
    assert_eq!(e.exit_code(), 5);

    assert_eq!(status_error(400, "").code, ErrorCode::InvalidInput);
    assert_eq!(status_error(422, "").code, ErrorCode::InvalidInput);

    let e = status_error(503, "down");
    assert_eq!(e.code, ErrorCode::Network);
    assert_eq!(e.message, "Apify returned a server error.");
    assert_eq!(e.exit_code(), 2);

    let e = status_error(418, "teapot");
    assert_eq!(e.code, ErrorCode::Error);
    assert_eq!(e.message, "The request failed.");
    assert_eq!(e.detail.as_deref(), Some("HTTP 418: teapot"));
    assert_eq!(e.exit_code(), 1);
}

#[test]
fn transport_errors() {
    let e = transport_error(TransportFailure::Timeout);
    assert_eq!(e.code, ErrorCode::Network);
    assert_eq!(e.message, "The request timed out.");
    assert_eq!(e.detail, None);
    assert_eq!(e.remediation.as_deref(), Some("Retry once, then stop."));

    let e = transport_error(TransportFailure::Other(s("dns failure")));
    assert_eq!(e.message, "Could not reach the Apify API.");
    assert_eq!(e.detail.as_deref(), Some("dns failure"));
}

#[test]
fn read_classifies_bodies() {
    assert!(matches!(read(204, b""), Ok(Document::EmptyObject)));
    assert!(matches!(read(200, b" \n\t\r"), Ok(Document::EmptyObject)));
    match read(200, b"not json") {
        Ok(Document::Text(t)) => assert_eq!(t, "not json"),
        _ => panic!("expected text"),
    }
    match read(201, br#"{"a": 1}"#) {
        Ok(Document::Json(v)) => assert_eq!(v["a"], 1),
        _ => panic!("expected JSON"),
    }
    match read(500, b"  boom \n") {
        Err(e) => {
            assert_eq!(e.code, ErrorCode::Network);
            assert_eq!(e.detail.as_deref(), Some("HTTP 500: boom"));
        },
        Ok(_) => panic!("expected an error"),
    }
    match read(199, b"") {
        Err(e) => assert_eq!(e.detail.as_deref(), Some("HTTP 199")),
        Ok(_) => panic!("expected an error"),
    }
    match read(404, &[0x66, 0xff, 0x6f]) {
        Err(e) => assert_eq!(e.detail.as_deref(), Some("HTTP 404: f\u{fffd}o")),
        Ok(_) => panic!("expected an error"),
    }
}

#[test]
fn client_base_and_requests() {
    let c = Client::new("  tok  ", None, None);
    assert_eq!(c.token(), "tok");
    assert_eq!(c.base(), "https://api.apify.com/v2/");

    let c = Client::new("tok", Some("http://localhost:8080/v2"), Some("http://other/"));
    assert_eq!(c.base(), "http://localhost:8080/v2/");

    let c = Client::new("tok", Some("   "), Some("http://other/"));
    assert_eq!(c.base(), "https://api.apify.com/v2/");

    let c = Client::new("tok", None, Some("http://other/"));
    assert_eq!(c.base(), "http://other/");

    let me = c.me();
    assert_eq!(me.method, Method::Get);
    assert_eq!(me.url, "http://other/users/me?token=tok");
    assert_eq!(me.headers, vec![(s("Authorization"), s("Bearer tok")), (s("Accept"), s("application/json"))]);

    let run = c.scrape();
    assert_eq!(run.method, Method::Post);
    assert_eq!(run.url, "http://other/acts/trudax~reddit-scraper-lite/run-sync-get-dataset-items?token=tok");
    assert_eq!(run.headers[2], (s("Content-Type"), s("application/json")));
    assert_eq!(c.url("x/y"), "http://other/x/y");
}

#[test]
fn proxy_default() {
    let p = ProxyConfig::default();
    assert!(p.use_apify_proxy);
    assert_eq!(p.apify_proxy_groups, vec![s("RESIDENTIAL")]);
}

#[test]
fn config_keeps_names_sorted_and_unique() {
    let mut c = Config::new();
    assert!(c.is_empty());
    c.insert(s("zeta"), account("z"));
    c.insert(s("alpha"), account("a"));
    c.insert(s("mid"), account("m"));
    c.insert(s("alpha"), account("A2"));
    let names: Vec<&str> = c.sorted().iter().map(|e| e.0.as_str()).collect();
    assert_eq!(names, vec!["alpha", "mid", "zeta"]);
    assert_eq!(c.sorted()[0].1.identity, "A2");
    let found = c.find("MID").unwrap();
    assert_eq!(found.0, "mid");
    assert!(c.find("nobody").is_none());
    assert!(c.remove("mid"));
    assert!(!c.remove("mid"));
    assert_eq!(c.len(), 2);
}

#[test]
fn describe_lists_accounts() {
    assert_eq!(
        describe(&Config::new()),
        "No accounts are configured yet. Run 'reddit accounts add <name> --api-key <key>'."
    );
    assert_eq!(describe(&two_accounts()), "Configured accounts: home, work (redditdev)");
    let mut c = Config::new();
    c.insert(s("solo"), account("  "));
    assert_eq!(describe(&c), "Configured accounts: solo");
}

#[test]
fn identity_preference() {
    let me = JsonValue::Object(vec![(
        s("data"),
        JsonValue::Object(vec![
            (s("username"), JsonValue::Str(s(""))),
            (s("email"), JsonValue::Str(s("dev@example.com"))),
            (s("id"), JsonValue::Str(s("usr_1"))),
        ]),
    )]);
    assert_eq!(identity::describe(&me), "dev@example.com");

    let me = JsonValue::Object(vec![
        (s("data"), JsonValue::Array(vec![])),
        (s("user"), JsonValue::Str(s("top-user"))),
        (s("name"), JsonValue::Str(s("Top Name"))),
    ]);
    assert_eq!(identity::describe(&me), "top-user");

    let me = JsonValue::Object(vec![(s("data"), JsonValue::Object(vec![])), (s("id"), JsonValue::Number(s("5")))]);
    assert_eq!(identity::describe(&me), "");
    assert_eq!(identity::describe(&JsonValue::Str(s("x"))), "");
    assert_eq!(identity::describe(&JsonValue::Null), "");
}

#[test]
fn resolve_direct_key_is_trimmed_and_first() {
    let r = finish(resolve(Some("work"), Some("  key  "))).unwrap();
    assert_eq!(r.name, "direct");
    assert_eq!(r.token, "key");
    assert!(r.config.is_none());
    assert!(matches!(resolve(None, Some("   ")), ResolveStep::LoadConfig(_)));
}

#[test]
fn resolve_unknown_account() {
    let st = await_config(resolve(Some(" nobody "), None));
    let e = finish(resolve_next(st, ResolveEvent::ConfigLoaded(two_accounts()))).unwrap_err();
    assert_eq!(e.code, ErrorCode::NoAccount);
    assert_eq!(e.message, "No account named 'nobody'.");
    assert_eq!(e.detail.as_deref(), Some("Configured accounts: home, work (redditdev)"));
    assert_eq!(e.remediation.as_deref(), Some("reddit accounts list"));
}

#[test]
fn resolve_named_account_without_key() {
    let st = await_config(resolve(Some("WORK"), None));
    let (name, st) = await_key(resolve_next(st, ResolveEvent::ConfigLoaded(two_accounts())));
    assert_eq!(name, "work");
    let e = finish(resolve_next(st, ResolveEvent::KeyRead(Some(s("  "))))).unwrap_err();
    assert_eq!(e.code, ErrorCode::AuthRequired);
    assert_eq!(e.message, "Account 'work' has no stored API key.");
    assert_eq!(e.remediation.as_deref(), Some("reddit accounts add work --api-key <key> --force"));
}

#[test]
fn resolve_environment_order() {
    let st = await_env(resolve_next(await_config(resolve(None, None)), ResolveEvent::ConfigLoaded(two_accounts())));
    let r = finish(resolve_next(st, env(Some(" apify "), Some("reddit")))).unwrap();
    assert_eq!(r.name, "environment");
    assert_eq!(r.token, "apify");

    let st = await_env(resolve_next(await_config(resolve(None, None)), ResolveEvent::ConfigLoaded(two_accounts())));
    let r = finish(resolve_next(st, env(None, Some("reddit")))).unwrap();
    assert_eq!(r.token, "reddit");

    // A set but blank APIFY_TOKEN hides REDDIT_API_KEY.
    let st = await_env(resolve_next(await_config(resolve(None, None)), ResolveEvent::ConfigLoaded(two_accounts())));
    let e = finish(resolve_next(st, env(Some(" "), Some("reddit")))).unwrap_err();
    assert_eq!(e.code, ErrorCode::NoAccount);
    assert_eq!(e.message, "Multiple accounts configured. Specify which account to use with --account <name>.");
}

#[test]
fn resolve_sole_account_and_empty_config() {
    let mut one = Config::new();
    one.insert(s("work"), account("redditdev"));
    let st = await_env(resolve_next(await_config(resolve(None, None)), ResolveEvent::ConfigLoaded(one)));
    let (name, st) = await_key(resolve_next(st, env(None, None)));
    assert_eq!(name, "work");
    let r = finish(resolve_next(st, ResolveEvent::KeyRead(Some(s(" stored "))))).unwrap();
    assert_eq!(r.name, "work");
    assert_eq!(r.token, " stored ");
    assert_eq!(r.config.unwrap().identity, "redditdev");

    let st = await_env(resolve_next(await_config(resolve(None, None)), ResolveEvent::ConfigLoaded(Config::new())));
    let e = finish(resolve_next(st, env(None, None))).unwrap_err();
    assert_eq!(e.code, ErrorCode::AuthRequired);
    assert_eq!(e.message, "No API token provided. Use --api-key, set APIFY_TOKEN, or run: reddit login");
    assert_eq!(e.remediation.as_deref(), Some("reddit login default"));
}

#[test]
fn exit_table_matches_codes() {
    let table = readme::exit_table();
    assert_eq!(table.len(), 8);
    assert_eq!(table[2], (s("2"), s("network - retry once, then stop")));
    assert_eq!(table[3], (s("3"), s("auth_required - stop, surface the remediation to a human")));
    assert_eq!(table[7], (s("7"), s("no_account - run reddit accounts list")));
    assert_eq!(readme::rules()[4], "Use --json when you are going to parse or pipe the output into jq.");
}

#[test]
fn dispatch_builds_inputs() {
    let cli = Cli {
        json: true,
        api_key: Some(s("k")),
        account: None,
        command: Command::Search(SearchArgs {
            query: s("q"),
            community: None,
            comments: false,
            communities: true,
            users: false,
            sort: s("top"),
            time: Some(s("month")),
            max_items: 20,
            max_posts: 3,
            max_comments: 4,
            skip_comments: true,
            nsfw: true,
            since: Some(s("2025-01-01")),
            comments_since: None,
        }),
    };
    match run(cli) {
        Dispatch::Search { input, account, api_key } => {
            assert!(!input.search_posts);
            assert!(input.search_communities);
            assert_eq!(input.sort.as_deref(), Some("top"));
            assert_eq!(input.time.as_deref(), Some("month"));
            assert_eq!(input.max_post_count, 3);
            assert!(input.include_nsfw);
            assert_eq!(input.post_date_limit.as_deref(), Some("2025-01-01"));
            assert_eq!(api_key.as_deref(), Some("k"));
            assert!(account.is_none());
        },
        _ => panic!("expected a search"),
    }
    let cli = Cli {
        json: false,
        api_key: None,
        account: Some(s("a")),
        command: Command::Accounts(AccountsCommand::List { check: true }),
    };
    assert!(matches!(run(cli), Dispatch::Accounts(AccountsCommand::List { check: true })));
    let cli = Cli {
        json: false,
        api_key: None,
        account: None,
        command: Command::Login(LoginArgs {
            name: s("default"),
            api_key: None,
            api_key_stdin: false,
            no_browser: true,
            force: false,
            skip_key_check: false,
        }),
    };
    assert!(matches!(run(cli), Dispatch::Login(_)));
}

#[test]
fn account_management_decisions() {
    let c = two_accounts();
    assert!(check_add(&c, "Work", true).is_ok());
    assert!(check_add(&c, "new", false).is_ok());
    let e = check_add(&c, "Work", false).unwrap_err();
    assert_eq!(e.message, "Account 'work' already exists.");
    assert_eq!(e.remediation.as_deref(), Some("reddit accounts add Work --api-key <key> --force"));
    let e = require_account(&c, "ghost").unwrap_err();
    assert_eq!(e.code, ErrorCode::NoAccount);
    assert_eq!(require_key("work", None).unwrap_err().code, ErrorCode::AuthRequired);
    assert_eq!(require_key("work", Some(s(" x "))).unwrap(), " x ");
    assert_eq!(key_status(false, Some(true)), KeyStatus::Missing);
    assert_eq!(key_status(true, Some(false)).name(), "invalid");
}

#[test]
fn error_builders() {
    let e = Error::new(ErrorCode::NotFound, "m").detail("d1").detail("d2").fix("f");
    assert_eq!(e.detail.as_deref(), Some("d2"));
    assert_eq!(e.remediation.as_deref(), Some("f"));
    assert_eq!(ErrorCode::RateLimited.name(), "rate_limited");
    assert_eq!(ErrorCode::NoAccount.exit_code(), 7);
    assert_eq!(ErrorCode::Error.guidance(), "unclassified, report and stop");
}

#[test]
fn prompts_and_given_keys() {
    assert_eq!(given_key("  tok\n").unwrap(), "tok");
    let e = given_key(" \n").unwrap_err();
    assert_eq!(e.code, ErrorCode::InvalidInput);
    assert_eq!(e.message, "No API key was given.");
    assert!(confirms("y\n"));
    assert!(confirms(" YeS "));
    assert!(!confirms("no"));
    assert!(!confirms(""));
}

#[test]
fn resolve_sole_account_without_key() {
    for key in [None, Some(s("  "))] {
        let mut one = Config::new();
        one.insert(s("work"), account("redditdev"));
        let st = await_env(resolve_next(await_config(resolve(None, None)), ResolveEvent::ConfigLoaded(one)));
        let (name, st) = await_key(resolve_next(st, env(None, None)));
        assert_eq!(name, "work");
        let e = finish(resolve_next(st, ResolveEvent::KeyRead(key))).unwrap_err();
        assert_eq!(e.code, ErrorCode::AuthRequired);
        assert_eq!(e.exit_code(), 3);
        assert_eq!(e.message, "Account 'work' has no stored API key.");
        assert_eq!(e.remediation.as_deref(), Some("reddit accounts add work --api-key <key> --force"));
    }
}

#[test]
fn read_returns_the_parsed_value() {
    match read(200, br#" {"items": [1, "two"], "ok": true} "#) {
        Ok(Document::Json(v)) => {
            let expected: serde_json::Value = serde_json::from_str(r#"{"items": [1, "two"], "ok": true}"#).unwrap();
            assert_eq!(v, expected);
        },
        _ => panic!("expected JSON"),
    }
}

#[test]
fn resolved_tokens_are_never_blank() {
    let st = await_env(resolve_next(await_config(resolve(None, Some(" \t"))), ResolveEvent::ConfigLoaded(Config::new())));
    let r = finish(resolve_next(st, env(Some("  env-token "), None))).unwrap();
    assert_eq!(r.name, "environment");
    assert!(r.config.is_none());
    assert_eq!(r.token, "env-token");
    assert!(!is_blank_str(&r.token));

    let mut c = Config::new();
    c.insert(s("direct"), account(""));
    let st = await_config(resolve(Some("direct"), None));
    let (_, st) = await_key(resolve_next(st, ResolveEvent::ConfigLoaded(c)));
    let r = finish(resolve_next(st, ResolveEvent::KeyRead(Some(s("k"))))).unwrap();
    assert_eq!(r.name, "direct");
    assert!(r.config.is_some());
}

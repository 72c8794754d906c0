//! The operating manual an agent reads before its first call: the Markdown
//! text, and the same rules and exit codes as structured data.

use vstd::prelude::*;
use crate::error::{ErrorCode, code_guidance, code_name, exit_status};
use crate::text::{decimal, push_decimal};

verus! {

/// The version of the agent interface.
pub const API_VERSION: &'static str = "1.0.0";

/// The name of the tool.
pub const TOOL: &'static str = "reddit";

/// The manual in Markdown.
pub const README: &'static str = r#"# reddit - agent operating manual

CLI for scraping Reddit posts, comments, communities, and users via Apify.
Results are YAML on stdout by default, errors are structured envelopes on stderr,
and `--json` switches both to JSON.

## Authentication

An Apify API token is required. You can provide it in any of the following ways:
1. Environment variable: `export APIFY_TOKEN=your-token-here` (or `REDDIT_API_KEY`)
2. Flag: `--api-key <KEY>`
3. OS Keystore / Multi-Account:
   `reddit login [<name>] [--api-key <key>]`
   `reddit accounts add <name> --api-key <key>`
   Then reference it with `--account <name>` (short `-a <name>`).

## Commands

### Search Reddit
Search Reddit for posts, comments, communities, or users:

    reddit search "rust vs go"
    reddit search "async await" --community rust
    reddit search "performance" --comments
    reddit search "programming" --communities
    reddit search "devops" --users
    reddit search "database" --sort top --time month --max-items 20

Options:
    --community <NAME>     Limit search to a specific community (e.g. 'rust')
    --comments             Search for comments instead of posts
    --communities          Search for communities
    --users                Search for users
    --sort <SORT>          Sort by: relevance, hot, top, new, rising, comments (default: new)
    --time <TIME>          Filter by time: all, hour, day, week, month, year
    --max-items <N>        Maximum items to return (default: 10)
    --max-posts <N>        Maximum posts per page (default: 10)
    --max-comments <N>     Maximum comments per post (default: 10)
    --skip-comments        Skip scraping comments on posts
    --nsfw                 Include NSFW content
    --since <DATE>         Only include posts after this date (e.g. 2025-01-01)
    --comments-since <DATE> Only include comments after this date

### Scrape Reddit URL
Scrape a Reddit post with comments, a subreddit community, or a user page:

    reddit scrape https://www.reddit.com/r/rust/comments/abc123/some_post/
    reddit scrape https://www.reddit.com/r/rust/ --max-posts 20
    reddit scrape https://www.reddit.com/user/someuser/
    reddit scrape https://www.reddit.com/r/programming/ --skip-comments
    reddit scrape https://www.reddit.com/r/rust/ --since 2025-01-01

Options:
    --skip-comments        Skip scraping comments
    --skip-user-posts      Skip scraping user posts when visiting user pages
    --skip-community       Skip community info (still scrapes posts)
    --max-items <N>        Maximum items to save (default: 10)
    --max-posts <N>        Maximum posts per page (default: 10)
    --max-comments <N>     Maximum comments per post (default: 10)
    --max-communities <N>  Maximum community pages to scrape (default: 2)
    --max-users <N>        Maximum user pages to scrape (default: 2)
    --since <DATE>         Only include posts after this date (e.g. 2025-01-01)
    --comments-since <DATE> Only include comments after this date

### Account Management
Manage multiple Apify accounts stored securely in native OS keystores (macOS Keychain,
Windows DPAPI, Linux Secret Service):

    reddit login [name] [--api-key <key>]
    reddit accounts add <name> --api-key <key> [--force]
    reddit accounts list [--check]
    reddit accounts test <name>
    reddit accounts remove <name> [--yes]

## Exit Codes

| Code | Name | Meaning |
|---|---|---|
| 0 | `ok` | Command succeeded |
| 1 | `error` | General failure |
| 2 | `network` | Network timeout or Apify connection error |
| 3 | `auth_required` | Missing or invalid API token |
| 4 | `not_found` | Resource not found |
| 5 | `rate_limited` | Apify rate limit encountered |
| 6 | `invalid_input` | Missing or invalid arguments |
| 7 | `no_account` | Requested account not found or ambiguous |
"#;

/// The rules the structured manual lists, in order.
pub open spec fn rules_view() -> Seq<Seq<char>> {
    seq![
        "Set APIFY_TOKEN or use --api-key / --account <name> for authentication."@,
        "Run 'reddit accounts list' if multiple accounts exist to inspect configured credentials."@,
        "On code auth_required, stop and surface the remediation string. Do not retry without valid credentials."@,
        "Reddit scraping is powered by Apify actor trudax/reddit-scraper-lite and can take 15-60 seconds."@,
        "Use --json when you are going to parse or pipe the output into jq."@,
        "Default output format is clean YAML for terminal readability."@,
    ]
}

/// The rules of the structured manual.
pub fn rules() -> (r: Vec<&'static str>)
    ensures
        r@.map_values(|s: &'static str| s@) == rules_view(),
{
    let r = vec![
        "Set APIFY_TOKEN or use --api-key / --account <name> for authentication.",
        "Run 'reddit accounts list' if multiple accounts exist to inspect configured credentials.",
        "On code auth_required, stop and surface the remediation string. Do not retry without valid credentials.",
        "Reddit scraping is powered by Apify actor trudax/reddit-scraper-lite and can take 15-60 seconds.",
        "Use --json when you are going to parse or pipe the output into jq.",
        "Default output format is clean YAML for terminal readability.",
    ];
    assert(r@.map_values(|s: &'static str| s@) =~= rules_view());
    r
}

/// Every error code, in the order of their exit statuses.
pub open spec fn all_codes() -> Seq<ErrorCode> {
    seq![
        ErrorCode::Error,
        ErrorCode::Network,
        ErrorCode::AuthRequired,
        ErrorCode::NotFound,
        ErrorCode::RateLimited,
        ErrorCode::InvalidInput,
        ErrorCode::NoAccount,
    ]
}

/// The line of the exit-code table for `code`: its name, a dash, and what to do.
pub open spec fn code_line(code: ErrorCode) -> Seq<char> {
    code_name(code) + " - "@ + code_guidance(code)
}

/// The exit-code table of the structured manual: status 0 is `ok`, and each
/// error code's status maps to its line.
pub open spec fn exit_table_view() -> Seq<(Seq<char>, Seq<char>)> {
    seq![("0"@, "ok"@)] + all_codes().map_values(
        |c: ErrorCode| (decimal(exit_status(c) as nat), code_line(c)),
    )
}

fn codes() -> (r: Vec<ErrorCode>)
    ensures
        r@ == all_codes(),
{
    let r = vec![
        ErrorCode::Error,
        ErrorCode::Network,
        ErrorCode::AuthRequired,
        ErrorCode::NotFound,
        ErrorCode::RateLimited,
        ErrorCode::InvalidInput,
        ErrorCode::NoAccount,
    ];
    assert(r@ =~= all_codes());
    r
}

/// The exit-code table of the structured manual, as (status, meaning) pairs.
pub fn exit_table() -> (r: Vec<(String, String)>)
    ensures
        r@.map_values(|p: (String, String)| (p.0@, p.1@)) == exit_table_view(),
{
    let cs = codes();
    let mut r: Vec<(String, String)> = Vec::new();
    r.push((String::from_str("0"), String::from_str("ok")));
    let ghost head: Seq<(Seq<char>, Seq<char>)> = seq![("0"@, "ok"@)];
    let ghost lines = all_codes().map_values(|c: ErrorCode| (decimal(exit_status(c) as nat), code_line(c)));
    assert(r@.map_values(|p: (String, String)| (p.0@, p.1@)) =~= head + lines.take(0));
    let mut i: usize = 0;
    while i < cs.len()
        invariant
            cs@ == all_codes(),
            i <= cs.len(),
            head == seq![("0"@, "ok"@)],
            lines == all_codes().map_values(|c: ErrorCode| (decimal(exit_status(c) as nat), code_line(c))),
            r@.map_values(|p: (String, String)| (p.0@, p.1@)) == head + lines.take(i as int),
        decreases cs.len() - i,
    {
        let c = cs[i];
        let mut status = String::new();
        push_decimal(&mut status, c.exit_code() as u64);
        let line = String::from_str(c.name()).concat(" - ").concat(c.guidance());
        let ghost before = r@;
        r.push((status, line));
        proof {
            assert(lines[i as int] == (decimal(exit_status(c) as nat), code_line(c)));
            assert(head + lines.take(i + 1) =~= (head + lines.take(i as int)).push(lines[i as int]));
            assert(r@.map_values(|p: (String, String)| (p.0@, p.1@)) =~= before.map_values(
                |p: (String, String)| (p.0@, p.1@),
            ).push(lines[i as int]));
        }
        i = i + 1;
    }
    assert(lines.take(7) =~= lines);
    r
}

/// Law: the exit-code table of the manual, word for word: 0 is `ok`, and each
/// error status names its code and what an agent should do.
pub proof fn lemma_exit_table_text()
    ensures
        exit_table_view() == seq![
            ("0"@, "ok"@),
            ("1"@, "error - unclassified, report and stop"@),
            ("2"@, "network - retry once, then stop"@),
            ("3"@, "auth_required - stop, surface the remediation to a human"@),
            ("4"@, "not_found - do not retry"@),
            ("5"@, "rate_limited - back off before retrying"@),
            ("6"@, "invalid_input - fix the call"@),
            ("7"@, "no_account - run reddit accounts list"@),
        ],
{
    reveal_strlit("0");
    reveal_strlit("1");
    reveal_strlit("2");
    reveal_strlit("3");
    reveal_strlit("4");
    reveal_strlit("5");
    reveal_strlit("6");
    reveal_strlit("7");
    reveal_strlit(" - ");
    reveal_strlit("error");
    reveal_strlit("network");
    reveal_strlit("auth_required");
    reveal_strlit("not_found");
    reveal_strlit("rate_limited");
    reveal_strlit("invalid_input");
    reveal_strlit("no_account");
    reveal_strlit("unclassified, report and stop");
    reveal_strlit("retry once, then stop");
    reveal_strlit("stop, surface the remediation to a human");
    reveal_strlit("do not retry");
    reveal_strlit("back off before retrying");
    reveal_strlit("fix the call");
    reveal_strlit("run reddit accounts list");
    reveal_strlit("error - unclassified, report and stop");
    reveal_strlit("network - retry once, then stop");
    reveal_strlit("auth_required - stop, surface the remediation to a human");
    reveal_strlit("not_found - do not retry");
    reveal_strlit("rate_limited - back off before retrying");
    reveal_strlit("invalid_input - fix the call");
    reveal_strlit("no_account - run reddit accounts list");
    let t = exit_table_view();
    assert(code_line(ErrorCode::Error) =~= "error - unclassified, report and stop"@);
    assert(code_line(ErrorCode::Network) =~= "network - retry once, then stop"@);
    assert(code_line(ErrorCode::AuthRequired) =~= "auth_required - stop, surface the remediation to a human"@);
    assert(code_line(ErrorCode::NotFound) =~= "not_found - do not retry"@);
    assert(code_line(ErrorCode::RateLimited) =~= "rate_limited - back off before retrying"@);
    assert(code_line(ErrorCode::InvalidInput) =~= "invalid_input - fix the call"@);
    assert(code_line(ErrorCode::NoAccount) =~= "no_account - run reddit accounts list"@);
    assert(decimal(1) =~= "1"@);
    assert(decimal(2) =~= "2"@);
    assert(decimal(3) =~= "3"@);
    assert(decimal(4) =~= "4"@);
    assert(decimal(5) =~= "5"@);
    assert(decimal(6) =~= "6"@);
    assert(decimal(7) =~= "7"@);
    assert(t =~= seq![
        ("0"@, "ok"@),
        ("1"@, "error - unclassified, report and stop"@),
        ("2"@, "network - retry once, then stop"@),
        ("3"@, "auth_required - stop, surface the remediation to a human"@),
        ("4"@, "not_found - do not retry"@),
        ("5"@, "rate_limited - back off before retrying"@),
        ("6"@, "invalid_input - fix the call"@),
        ("7"@, "no_account - run reddit accounts list"@),
    ]);
}

/// Law: the exit statuses of the error codes are 1 to 7, one per code, so a
/// status names its code and none is 0, the status of success.
pub proof fn lemma_exit_statuses_distinct(a: ErrorCode, b: ErrorCode)
    ensures
        1 <= exit_status(a) <= 7,
        exit_status(a) == exit_status(b) ==> a == b,
        all_codes()[exit_status(a) - 1] == a,
{
}

} // verus!

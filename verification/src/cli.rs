//! The command line of the tool as plain values: global options and one
//! command with its arguments.

use vstd::prelude::*;

verus! {

/// The parsed command line.
#[derive(Debug)]
pub struct Cli {
    /// Print raw JSON instead of YAML.
    pub json: bool,
    /// Apify API token given on the command line.
    pub api_key: Option<String>,
    /// Account to run against.
    pub account: Option<String>,
    pub command: Command,
}

/// The command to run.
#[derive(Debug)]
pub enum Command {
    /// Search Reddit for posts, comments, communities, or users.
    Search(SearchArgs),
    /// Scrape a Reddit URL (post, community, or user page).
    Scrape(ScrapeArgs),
    /// Log in with an Apify API token.
    Login(LoginArgs),
    /// Manage configured accounts and their API keys.
    Accounts(AccountsCommand),
    /// Print the operating manual for an LLM agent driving this CLI.
    AgentReadme,
}

/// Arguments of `search`.
#[derive(Clone, Debug)]
pub struct SearchArgs {
    pub query: String,
    pub community: Option<String>,
    pub comments: bool,
    pub communities: bool,
    pub users: bool,
    pub sort: String,
    pub time: Option<String>,
    pub max_items: u32,
    pub max_posts: u32,
    pub max_comments: u32,
    pub skip_comments: bool,
    pub nsfw: bool,
    pub since: Option<String>,
    pub comments_since: Option<String>,
}

/// Arguments of `scrape`.
#[derive(Clone, Debug)]
pub struct ScrapeArgs {
    pub url: String,
    pub skip_comments: bool,
    pub skip_user_posts: bool,
    pub skip_community: bool,
    pub max_items: u32,
    pub max_posts: u32,
    pub max_comments: u32,
    pub max_communities: u32,
    pub max_users: u32,
    pub since: Option<String>,
    pub comments_since: Option<String>,
}

/// Arguments of `login`.
#[derive(Clone, Debug)]
pub struct LoginArgs {
    pub name: String,
    pub api_key: Option<String>,
    pub api_key_stdin: bool,
    pub no_browser: bool,
    pub force: bool,
    pub skip_key_check: bool,
}

/// The `accounts` subcommands.
#[derive(Clone, Debug)]
pub enum AccountsCommand {
    /// Add an account and store its Apify token.
    Add { name: String, api_key: Option<String>, api_key_stdin: bool, force: bool, skip_key_check: bool },
    /// List configured accounts and report keystore status.
    List { check: bool },
    /// Test that an account's stored key is valid.
    Test { name: String },
    /// Remove an account and delete its key.
    Remove { name: String, yes: bool },
}

} // verus!

//! Dispatch of a parsed command line to what the tool does.

pub mod scrape;
pub mod search;

use vstd::prelude::*;
use crate::cli::{AccountsCommand, Cli, Command, LoginArgs};
use crate::client::{ScrapeInput, SearchInput};
use crate::commands::scrape::{scrape_input, scrape_input_matches};
use crate::commands::search::{search_input, search_input_matches};

verus! {

/// What a command line asks the tool to do.
#[derive(Debug)]
pub enum Dispatch {
    /// Run the scraper with a search, authenticating as the options say.
    Search { input: SearchInput, account: Option<String>, api_key: Option<String> },
    /// Run the scraper on a URL, authenticating as the options say.
    Scrape { input: ScrapeInput, account: Option<String>, api_key: Option<String> },
    /// Store a token for an account.
    Login(LoginArgs),
    /// Manage the configured accounts.
    Accounts(AccountsCommand),
    /// Print the operating manual.
    AgentReadme,
}

/// Decides what `cli` asks for: a search or scrape carries the scraper input
/// built from its arguments and the global account and key options; the other
/// commands carry their arguments.
pub fn run(cli: Cli) -> (d: Dispatch)
    ensures
        match (cli.command, d) {
            (Command::Search(args), Dispatch::Search { input, account, api_key }) => search_input_matches(args, input)
                && account.deep_view() == cli.account.deep_view() && api_key.deep_view() == cli.api_key.deep_view(),
            (Command::Scrape(args), Dispatch::Scrape { input, account, api_key }) => scrape_input_matches(args, input)
                && account.deep_view() == cli.account.deep_view() && api_key.deep_view() == cli.api_key.deep_view(),
            (Command::Login(a), Dispatch::Login(b)) => a == b,
            (Command::Accounts(a), Dispatch::Accounts(b)) => a == b,
            (Command::AgentReadme, Dispatch::AgentReadme) => true,
            _ => false,
        },
{
    let account = cli.account;
    let api_key = cli.api_key;
    match cli.command {
        Command::Search(args) => Dispatch::Search { input: search_input(args), account, api_key },
        Command::Scrape(args) => Dispatch::Scrape { input: scrape_input(args), account, api_key },
        Command::Login(args) => Dispatch::Login(args),
        Command::Accounts(cmd) => Dispatch::Accounts(cmd),
        Command::AgentReadme => Dispatch::AgentReadme,
    }
}

} // verus!

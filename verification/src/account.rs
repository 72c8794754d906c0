//! Choosing the API token a command runs with, and describing the configured
//! accounts.
//!
//! The choice follows a fixed priority: a direct key, then a named account,
//! then the `APIFY_TOKEN` / `REDDIT_API_KEY` variables, then the only
//! configured account. Reading the configuration, the keystore and the
//! environment is left to the caller: [`resolve`] and [`resolve_next`] decide,
//! and ask for one of those readings at a time.

pub mod identity;

use vstd::prelude::*;
use crate::client::Client;
use crate::config::{AccountConfig, AccountView, Config, entries_view, find_entry};
use crate::error::{Error, ErrorCode, ErrorView, plain_error};
use crate::text::{is_blank, is_blank_str, lemma_trimmed_idempotent, trim, trimmed};

verus! {

/// The account a command runs as and the token it authenticates with.
#[derive(Debug)]
pub struct Resolved {
    pub name: String,
    pub config: Option<AccountConfig>,
    pub token: String,
}

/// What a [`Resolved`] holds.
pub struct ResolvedView {
    pub name: Seq<char>,
    pub account: Option<AccountView>,
    pub token: Seq<char>,
}

impl View for Resolved {
    type V = ResolvedView;

    open spec fn view(&self) -> ResolvedView {
        ResolvedView {
            name: self.name@,
            account: match self.config {
                Some(a) => Some(a@),
                None => None,
            },
            token: self.token@,
        }
    }
}

impl Resolved {
    /// A client for this token, with the API root chosen from the values of
    /// `REDDIT_API_URL` and `APIFY_API_URL` (`None` when unset).
    pub fn client(&self, reddit_api_url: Option<&str>, apify_api_url: Option<&str>) -> (c: Client)
        ensures
            c@.token == trimmed(self.token@),
            c@.base == crate::client::chosen_base(reddit_api_url.deep_view(), apify_api_url.deep_view()),
    {
        Client::new(self.token.as_str(), reddit_api_url, apify_api_url)
    }
}

/// The text that says no account is configured.
pub const NO_ACCOUNTS: &'static str = "No accounts are configured yet. Run 'reddit accounts add <name> --api-key <key>'.";

/// How one account is listed: its name, then its identity in parentheses
/// unless the identity is blank.
pub open spec fn account_label(e: (Seq<char>, AccountView)) -> Seq<char> {
    if is_blank(e.1.identity) {
        e.0
    } else {
        e.0 + " ("@ + e.1.identity + ")"@
    }
}

/// `items` joined with `sep` between neighbours.
pub open spec fn join(items: Seq<Seq<char>>, sep: Seq<char>) -> Seq<char>
    decreases items.len(),
{
    if items.len() == 0 {
        Seq::empty()
    } else if items.len() == 1 {
        items[0]
    } else {
        join(items.drop_last(), sep) + sep + items.last()
    }
}

/// The description of the configured accounts `entries`.
pub open spec fn describe_view(entries: Seq<(Seq<char>, AccountView)>) -> Seq<char> {
    if entries.len() == 0 {
        NO_ACCOUNTS@
    } else {
        "Configured accounts: "@ + join(entries.map_values(|e: (Seq<char>, AccountView)| account_label(e)), ", "@)
    }
}

fn label(name: &String, account: &AccountConfig) -> (r: String)
    ensures
        r@ == account_label((name@, account@)),
{
    if is_blank_str(account.identity.as_str()) {
        name.clone()
    } else {
        name.clone().concat(" (").concat(account.identity.as_str()).concat(")")
    }
}

/// Lists the configured accounts in name order, each with its identity when
/// one is known.
pub fn describe(config: &Config) -> (r: String)
    ensures
        r@ == describe_view(config@),
{
    if config.is_empty() {
        return String::from_str(NO_ACCOUNTS);
    }
    let entries = config.sorted();
    let n = entries.len();
    let ghost labels = config@.map_values(|e: (Seq<char>, AccountView)| account_label(e));
    let mut res = String::from_str("Configured accounts: ");
    let mut i: usize = 0;
    while i < n
        invariant
            n == entries@.len(),
            entries_view(entries@) == config@,
            labels == config@.map_values(|e: (Seq<char>, AccountView)| account_label(e)),
            i <= n,
            res@ == "Configured accounts: "@ + join(labels.take(i as int), ", "@),
        decreases n - i,
    {
        let e = &entries[i];
        let l = label(&e.0, &e.1);
        proof {
            assert(config@[i as int] == (e.0@, e.1@));
            assert(labels[i as int] == l@);
            assert(labels.take(i + 1).drop_last() =~= labels.take(i as int));
        }
        if i > 0 {
            res.append(", ");
        }
        res.append(l.as_str());
        proof {
            if i == 0 {
                assert(labels.take(1) =~= seq![l@]);
            }
        }
        i = i + 1;
    }
    assert(labels.take(n as int) =~= labels);
    res
}

/// The error for a requested account that is not configured.
pub open spec fn unknown_account_error(requested: Seq<char>, config: Seq<(Seq<char>, AccountView)>) -> ErrorView {
    plain_error(ErrorCode::NoAccount, "No account named '"@ + requested + "'."@).with_detail(
        describe_view(config),
    ).with_fix("reddit accounts list"@)
}

/// The error for a configured account whose key is missing from the keystore.
pub open spec fn missing_key_error(name: Seq<char>) -> ErrorView {
    plain_error(ErrorCode::AuthRequired, "Account '"@ + name + "' has no stored API key."@).with_detail(
        "The config entry exists but the keystore has nothing under it."@,
    ).with_fix("reddit accounts add "@ + name + " --api-key <key> --force"@)
}

/// The error when no source gave a token: none is configured, or several are
/// and none was named.
pub open spec fn no_choice_error(config: Seq<(Seq<char>, AccountView)>) -> ErrorView {
    if config.len() == 0 {
        plain_error(
            ErrorCode::AuthRequired,
            "No API token provided. Use --api-key, set APIFY_TOKEN, or run: reddit login"@,
        ).with_fix("reddit login default"@)
    } else {
        plain_error(
            ErrorCode::NoAccount,
            "Multiple accounts configured. Specify which account to use with --account <name>."@,
        ).with_detail(describe_view(config)).with_fix("reddit accounts list"@)
    }
}

/// The error for a requested account that is not configured.
pub fn unknown_account_error_for(requested: &str, config: &Config) -> (e: Error)
    ensures
        e@ == unknown_account_error(requested@, config@),
{
    let msg = String::from_str("No account named '").concat(requested).concat("'.");
    let d = describe(config);
    Error::new(ErrorCode::NoAccount, msg.as_str()).detail(d.as_str()).fix("reddit accounts list")
}

/// The error for a configured account whose key is missing from the keystore.
pub fn missing_key_error_for(name: &str) -> (e: Error)
    ensures
        e@ == missing_key_error(name@),
{
    let msg = String::from_str("Account '").concat(name).concat("' has no stored API key.");
    let fix = String::from_str("reddit accounts add ").concat(name).concat(" --api-key <key> --force");
    Error::new(ErrorCode::AuthRequired, msg.as_str()).detail(
        "The config entry exists but the keystore has nothing under it.",
    ).fix(fix.as_str())
}

fn no_choice(config: &Config) -> (e: Error)
    ensures
        e@ == no_choice_error(config@),
{
    if config.is_empty() {
        Error::new(
            ErrorCode::AuthRequired,
            "No API token provided. Use --api-key, set APIFY_TOKEN, or run: reddit login",
        ).fix("reddit login default")
    } else {
        let d = describe(config);
        Error::new(
            ErrorCode::NoAccount,
            "Multiple accounts configured. Specify which account to use with --account <name>.",
        ).detail(d.as_str()).fix("reddit accounts list")
    }
}

/// Where a resolution stands while it waits for a reading.
pub enum ResolveState {
    /// Waiting for the configuration; `requested` is the trimmed account name, if one was given.
    AwaitConfig { requested: Option<String> },
    /// Waiting for the stored key of the chosen account: the one asked for,
    /// or the only one configured.
    AwaitKey { name: String, account: AccountConfig },
    /// Waiting for the token variables of the environment.
    AwaitEnv { config: Config },
}

/// A reading that answers what a resolution asked for.
pub enum ResolveEvent {
    /// The loaded configuration.
    ConfigLoaded(Config),
    /// The key stored for the account, if any.
    KeyRead(Option<String>),
    /// The values of `APIFY_TOKEN` and `REDDIT_API_KEY` (`None` when unset).
    EnvRead { apify_token: Option<String>, reddit_api_key: Option<String> },
}

/// What a resolution does next: ask for a reading, or finish.
pub enum ResolveStep {
    /// Load the configuration, then continue with the state.
    LoadConfig(ResolveState),
    /// Read the key stored for the named account, then continue with the state.
    ReadKey(String, ResolveState),
    /// Read the token variables, then continue with the state.
    ReadEnv(ResolveState),
    /// The resolution is over.
    Done(Result<Resolved, Error>),
}

/// What a [`ResolveState`] holds.
pub enum StateView {
    AwaitConfig { requested: Option<Seq<char>> },
    AwaitKey { name: Seq<char>, account: AccountView },
    AwaitEnv { config: Seq<(Seq<char>, AccountView)> },
}

/// What a [`ResolveEvent`] holds.
pub enum EventView {
    ConfigLoaded(Seq<(Seq<char>, AccountView)>),
    KeyRead(Option<Seq<char>>),
    EnvRead(Option<Seq<char>>, Option<Seq<char>>),
}

/// What a [`ResolveStep`] holds.
pub enum StepView {
    LoadConfig(StateView),
    ReadKey(Seq<char>, StateView),
    ReadEnv(StateView),
    Done(Result<ResolvedView, ErrorView>),
}

impl View for ResolveState {
    type V = StateView;

    open spec fn view(&self) -> StateView {
        match self {
            ResolveState::AwaitConfig { requested } => StateView::AwaitConfig { requested: requested.deep_view() },
            ResolveState::AwaitKey { name, account } => StateView::AwaitKey {
                name: name@,
                account: account@,
            },
            ResolveState::AwaitEnv { config } => StateView::AwaitEnv { config: config@ },
        }
    }
}

impl View for ResolveEvent {
    type V = EventView;

    open spec fn view(&self) -> EventView {
        match self {
            ResolveEvent::ConfigLoaded(c) => EventView::ConfigLoaded(c@),
            ResolveEvent::KeyRead(k) => EventView::KeyRead(k.deep_view()),
            ResolveEvent::EnvRead { apify_token, reddit_api_key } => EventView::EnvRead(
                apify_token.deep_view(),
                reddit_api_key.deep_view(),
            ),
        }
    }
}

impl View for ResolveStep {
    type V = StepView;

    open spec fn view(&self) -> StepView {
        match self {
            ResolveStep::LoadConfig(s) => StepView::LoadConfig(s@),
            ResolveStep::ReadKey(name, s) => StepView::ReadKey(name@, s@),
            ResolveStep::ReadEnv(s) => StepView::ReadEnv(s@),
            ResolveStep::Done(r) => StepView::Done(
                match r {
                    Ok(v) => Ok(v@),
                    Err(e) => Err(e@),
                },
            ),
        }
    }
}

/// Whether `event` is the kind of reading that `state` waits for.
pub open spec fn answers(state: StateView, event: EventView) -> bool {
    match state {
        StateView::AwaitConfig { .. } => event is ConfigLoaded,
        StateView::AwaitKey { .. } => event is KeyRead,
        StateView::AwaitEnv { .. } => event is EnvRead,
    }
}

/// Whether a step asks for the reading that its state waits for.
pub open spec fn asks_consistently(step: StepView) -> bool {
    match step {
        StepView::LoadConfig(s) => s is AwaitConfig,
        StepView::ReadKey(_, s) => s is AwaitKey,
        StepView::ReadEnv(s) => s is AwaitEnv,
        StepView::Done(_) => true,
    }
}

/// The resolution that a direct key gives, if it is not blank.
pub open spec fn direct_resolution(direct_key: Seq<char>) -> ResolvedView {
    ResolvedView { name: "direct"@, account: None, token: trimmed(direct_key) }
}

/// The resolution that a token variable gives.
pub open spec fn environment_resolution(token: Seq<char>) -> ResolvedView {
    ResolvedView { name: "environment"@, account: None, token: trimmed(token) }
}

/// The first step of a resolution.
pub open spec fn start_view(requested_account: Option<Seq<char>>, direct_key: Option<Seq<char>>) -> StepView {
    match direct_key {
        Some(k) if !is_blank(k) => StepView::Done(Ok(direct_resolution(k))),
        _ => StepView::LoadConfig(
            StateView::AwaitConfig {
                requested: match requested_account {
                    Some(r) if !is_blank(r) => Some(trimmed(r)),
                    _ => None,
                },
            },
        ),
    }
}

/// The token variable that counts: `APIFY_TOKEN` when set, else `REDDIT_API_KEY`.
pub open spec fn env_token(apify_token: Option<Seq<char>>, reddit_api_key: Option<Seq<char>>) -> Option<Seq<char>> {
    if apify_token is Some {
        apify_token
    } else {
        reddit_api_key
    }
}

/// The step after `state` receives `event`.
pub open spec fn next_view(state: StateView, event: EventView) -> StepView {
    match (state, event) {
        (StateView::AwaitConfig { requested }, EventView::ConfigLoaded(config)) => match requested {
            Some(r) => match find_entry(config, r) {
                Some(e) => StepView::ReadKey(e.0, StateView::AwaitKey { name: e.0, account: e.1 }),
                None => StepView::Done(Err(unknown_account_error(r, config))),
            },
            None => StepView::ReadEnv(StateView::AwaitEnv { config }),
        },
        (StateView::AwaitKey { name, account }, EventView::KeyRead(key)) => match key {
            Some(k) if !is_blank(k) => StepView::Done(Ok(ResolvedView { name, account: Some(account), token: k })),
            _ => StepView::Done(Err(missing_key_error(name))),
        },
        (StateView::AwaitEnv { config }, EventView::EnvRead(apify, reddit)) => match env_token(apify, reddit) {
            Some(t) if !is_blank(t) => StepView::Done(Ok(environment_resolution(t))),
            _ => if config.len() == 1 {
                StepView::ReadKey(
                    config[0].0,
                    StateView::AwaitKey { name: config[0].0, account: config[0].1 },
                )
            } else {
                StepView::Done(Err(no_choice_error(config)))
            },
        },
        _ => StepView::Done(Err(plain_error(ErrorCode::Error, Seq::empty()))),
    }
}

/// The token a command runs with, by the documented priority: a direct key
/// that is not blank; else the named account (when a name is given), whose
/// stored key must not be blank; else a token variable that is not blank;
/// else the only configured account, whose stored key must not be blank; else
/// an error that says whether no account or several are configured.
/// `stored` gives the keystore's content for each account name.
pub open spec fn resolution(
    requested_account: Option<Seq<char>>,
    direct_key: Option<Seq<char>>,
    config: Seq<(Seq<char>, AccountView)>,
    stored: spec_fn(Seq<char>) -> Option<Seq<char>>,
    apify_token: Option<Seq<char>>,
    reddit_api_key: Option<Seq<char>>,
) -> Result<ResolvedView, ErrorView> {
    if direct_key is Some && !is_blank(direct_key->0) {
        Ok(direct_resolution(direct_key->0))
    } else if requested_account is Some && !is_blank(requested_account->0) {
        let r = trimmed(requested_account->0);
        match find_entry(config, r) {
            None => Err(unknown_account_error(r, config)),
            Some(e) => match stored(e.0) {
                Some(k) if !is_blank(k) => Ok(ResolvedView { name: e.0, account: Some(e.1), token: k }),
                _ => Err(missing_key_error(e.0)),
            },
        }
    } else if env_token(apify_token, reddit_api_key) is Some && !is_blank(
        env_token(apify_token, reddit_api_key)->0,
    ) {
        Ok(environment_resolution(env_token(apify_token, reddit_api_key)->0))
    } else if config.len() == 1 {
        match stored(config[0].0) {
            Some(k) if !is_blank(k) => Ok(ResolvedView { name: config[0].0, account: Some(config[0].1), token: k }),
            _ => Err(missing_key_error(config[0].0)),
        }
    } else {
        Err(no_choice_error(config))
    }
}

/// Runs a resolution from `step` for at most `fuel` readings, answering each
/// reading from the given configuration, keystore content and environment;
/// `None` if it has not finished by then.
pub open spec fn drive(
    step: StepView,
    fuel: nat,
    config: Seq<(Seq<char>, AccountView)>,
    stored: spec_fn(Seq<char>) -> Option<Seq<char>>,
    apify_token: Option<Seq<char>>,
    reddit_api_key: Option<Seq<char>>,
) -> Option<Result<ResolvedView, ErrorView>>
    decreases fuel,
{
    match step {
        StepView::Done(r) => Some(r),
        StepView::LoadConfig(s) => if fuel == 0 {
            None
        } else {
            drive(next_view(s, EventView::ConfigLoaded(config)), (fuel - 1) as nat, config, stored, apify_token, reddit_api_key)
        },
        StepView::ReadKey(name, s) => if fuel == 0 {
            None
        } else {
            drive(next_view(s, EventView::KeyRead(stored(name))), (fuel - 1) as nat, config, stored, apify_token, reddit_api_key)
        },
        StepView::ReadEnv(s) => if fuel == 0 {
            None
        } else {
            drive(
                next_view(s, EventView::EnvRead(apify_token, reddit_api_key)),
                (fuel - 1) as nat,
                config,
                stored,
                apify_token,
                reddit_api_key,
            )
        },
    }
}

/// Law: a resolution started with [`resolve`] and continued with
/// [`resolve_next`], each reading answered truthfully, finishes after at most
/// three readings with the token the documented priority gives, and asks at
/// every step for the reading its state waits for.
pub proof fn lemma_resolution_follows_priority(
    requested_account: Option<Seq<char>>,
    direct_key: Option<Seq<char>>,
    config: Seq<(Seq<char>, AccountView)>,
    stored: spec_fn(Seq<char>) -> Option<Seq<char>>,
    apify_token: Option<Seq<char>>,
    reddit_api_key: Option<Seq<char>>,
)
    ensures
        drive(start_view(requested_account, direct_key), 3, config, stored, apify_token, reddit_api_key)
            == Some(resolution(requested_account, direct_key, config, stored, apify_token, reddit_api_key)),
{
    reveal_with_fuel(drive, 4);
}

/// Law: the readings a resolution asks for are never more than three — the
/// configuration, then the token variables or a key, then at most one key.
pub proof fn lemma_resolution_terminates(
    requested_account: Option<Seq<char>>,
    direct_key: Option<Seq<char>>,
    config: Seq<(Seq<char>, AccountView)>,
    stored: spec_fn(Seq<char>) -> Option<Seq<char>>,
    apify_token: Option<Seq<char>>,
    reddit_api_key: Option<Seq<char>>,
)
    ensures
        drive(start_view(requested_account, direct_key), 3, config, stored, apify_token, reddit_api_key) is Some,
{
    lemma_resolution_follows_priority(requested_account, direct_key, config, stored, apify_token, reddit_api_key);
}

/// Law: a resolution that finishes with a token never carries a blank one;
/// one without an account is either the direct key's or the environment's;
/// and it is the direct key's (named `direct`, no account) exactly when a
/// direct key that is not blank was given.
pub proof fn lemma_resolved_token_not_blank(
    requested_account: Option<Seq<char>>,
    direct_key: Option<Seq<char>>,
    config: Seq<(Seq<char>, AccountView)>,
    stored: spec_fn(Seq<char>) -> Option<Seq<char>>,
    apify_token: Option<Seq<char>>,
    reddit_api_key: Option<Seq<char>>,
)
    ensures
        ({
            let outcome = drive(start_view(requested_account, direct_key), 3, config, stored, apify_token, reddit_api_key);
            &&& outcome matches Some(Ok(r)) ==> !is_blank(r.token)
            &&& outcome matches Some(Ok(r)) ==> (r.account is None ==> r.name == "direct"@ || r.name == "environment"@)
            &&& (outcome matches Some(Ok(r)) && r.name == "direct"@ && r.account is None) <==> (direct_key is Some
                && !is_blank(direct_key->0))
        }),
{
    lemma_resolution_follows_priority(requested_account, direct_key, config, stored, apify_token, reddit_api_key);
    reveal_strlit("direct");
    reveal_strlit("environment");
    if direct_key is Some {
        lemma_trimmed_idempotent(direct_key->0);
    }
    let e = env_token(apify_token, reddit_api_key);
    if e is Some {
        lemma_trimmed_idempotent(e->0);
    }
    assert("direct"@ != "environment"@) by {
        assert("direct"@.len() != "environment"@.len());
    }
}

/// Starts resolving the token: finishes at once on a direct key that is not
/// blank, else asks for the configuration.
pub fn resolve(requested_account: Option<&str>, direct_key: Option<&str>) -> (step: ResolveStep)
    ensures
        step@ == start_view(requested_account.deep_view(), direct_key.deep_view()),
        asks_consistently(step@),
{
    if let Some(k) = direct_key {
        if !is_blank_str(k) {
            return ResolveStep::Done(
                Ok(Resolved { name: String::from_str("direct"), config: None, token: trim(k) }),
            );
        }
    }
    let requested = match requested_account {
        Some(r) => if is_blank_str(r) { None } else { Some(trim(r)) },
        None => None,
    };
    ResolveStep::LoadConfig(ResolveState::AwaitConfig { requested })
}

/// Whether `event` is the kind of reading that `state` waits for.
pub fn accepts(state: &ResolveState, event: &ResolveEvent) -> (b: bool)
    ensures
        b == answers(state@, event@),
{
    match state {
        ResolveState::AwaitConfig { .. } => matches!(event, ResolveEvent::ConfigLoaded(_)),
        ResolveState::AwaitKey { .. } => matches!(event, ResolveEvent::KeyRead(_)),
        ResolveState::AwaitEnv { .. } => matches!(event, ResolveEvent::EnvRead { .. }),
    }
}

/// Continues a resolution with the reading it asked for.
pub fn resolve_next(state: ResolveState, event: ResolveEvent) -> (step: ResolveStep)
    requires
        answers(state@, event@),
    ensures
        step@ == next_view(state@, event@),
        asks_consistently(step@),
{
    match state {
        ResolveState::AwaitConfig { requested } => {
            let config = match event {
                ResolveEvent::ConfigLoaded(c) => c,
                _ => unreached(),
            };
            match requested {
                Some(r) => match config.find(r.as_str()) {
                    Some((name, account)) => {
                        let n2 = name.clone();
                        ResolveStep::ReadKey(n2, ResolveState::AwaitKey { name, account })
                    },
                    None => ResolveStep::Done(Err(unknown_account_error_for(r.as_str(), &config))),
                },
                None => ResolveStep::ReadEnv(ResolveState::AwaitEnv { config }),
            }
        },
        ResolveState::AwaitKey { name, account } => {
            let key = match event {
                ResolveEvent::KeyRead(k) => k,
                _ => unreached(),
            };
            match key {
                Some(k) => if is_blank_str(k.as_str()) {
                    ResolveStep::Done(Err(missing_key_error_for(name.as_str())))
                } else {
                    ResolveStep::Done(Ok(Resolved { name, config: Some(account), token: k }))
                },
                None => ResolveStep::Done(Err(missing_key_error_for(name.as_str()))),
            }
        },
        ResolveState::AwaitEnv { config } => {
            let (apify, reddit) = match event {
                ResolveEvent::EnvRead { apify_token, reddit_api_key } => (apify_token, reddit_api_key),
                _ => unreached(),
            };
            let chosen = match apify {
                Some(a) => Some(a),
                None => reddit,
            };
            if let Some(t) = chosen {
                if !is_blank_str(t.as_str()) {
                    return ResolveStep::Done(
                        Ok(Resolved { name: String::from_str("environment"), config: None, token: trim(t.as_str()) }),
                    );
                }
            }
            if config.len() == 1 {
                let (name, account) = config.entry(0);
                let n2 = name.clone();
                ResolveStep::ReadKey(n2, ResolveState::AwaitKey { name, account })
            } else {
                ResolveStep::Done(Err(no_choice(&config)))
            }
        },
    }
}

} // verus!

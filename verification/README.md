# reddit_cli

A command-line client for the Apify Reddit scraper (`reddit search`,
`reddit scrape`, `reddit login`, `reddit accounts ...`, `reddit agent-readme`),
split into a library whose behaviour is stated in contracts and proved with
Verus, and a thin program around it.

## Layout

- `src/` — the library:
  - `text.rs` — trimming (Unicode white space), ASCII case folding, decimal rendering.
  - `error.rs` — error codes, their names and exit statuses, and the error value.
  - `client.rs` — the API root choice, the requests (URL and headers) the tool
    sends, the mapping of HTTP statuses and transport failures to errors, and
    the reading of a response body.
  - `config.rs` — configured accounts, kept sorted by name with unique names.
  - `account.rs` — token resolution as a step function (direct key, named
    account, environment, sole account) with the law that it follows the
    documented priority; `account/identity.rs` — who a token belongs to.
  - `accounts.rs` — decisions of the account commands.
  - `json.rs` — JSON values as plain data.
  - `cli.rs`, `commands.rs`, `commands/` — the command line as plain values,
    dispatch, and the scraper inputs built from arguments.
  - `readme.rs` — the agent manual and its exit-code table.
- `tests/` — tests of the library.
- `app/` — the program: argument parsing, HTTP, files, environment, output.

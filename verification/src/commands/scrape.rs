//! The scraper input of a scrape.

use vstd::prelude::*;
use crate::cli::ScrapeArgs;
use crate::client::{ProxyConfig, ScrapeInput, StartUrl};

verus! {

/// Whether `input` is the scraper input for `args`: the URL as the only start
/// URL, every option carried over as given, and the default proxy.
pub open spec fn scrape_input_matches(args: ScrapeArgs, input: ScrapeInput) -> bool {
    &&& input.start_urls@.len() == 1
    &&& input.start_urls@[0].url@ == args.url@
    &&& input.skip_comments == args.skip_comments
    &&& input.skip_user_posts == args.skip_user_posts
    &&& input.skip_community == args.skip_community
    &&& input.max_items == args.max_items
    &&& input.max_post_count == args.max_posts
    &&& input.max_comments == args.max_comments
    &&& input.max_communities_count == args.max_communities
    &&& input.max_user_count == args.max_users
    &&& input.post_date_limit.deep_view() == args.since.deep_view()
    &&& input.comment_date_limit.deep_view() == args.comments_since.deep_view()
    &&& input.proxy.is_default()
}

/// Law: each limit of a scrape comes from the option of the same meaning:
/// items from `--max-items`, posts per page from `--max-posts`, comments per
/// post from `--max-comments`, community pages from `--max-communities` and
/// user pages from `--max-users`; the URL is the one start URL, and each skip
/// flag is kept.
pub proof fn lemma_scrape_limits(args: ScrapeArgs, input: ScrapeInput)
    requires
        scrape_input_matches(args, input),
    ensures
        input.max_items == args.max_items,
        input.max_post_count == args.max_posts,
        input.max_comments == args.max_comments,
        input.max_communities_count == args.max_communities,
        input.max_user_count == args.max_users,
        input.start_urls@.len() == 1 && input.start_urls@[0].url@ == args.url@,
        input.skip_comments == args.skip_comments,
        input.skip_user_posts == args.skip_user_posts,
        input.skip_community == args.skip_community,
{
}

/// The scraper input for a scrape with `args`.
pub fn scrape_input(args: ScrapeArgs) -> (input: ScrapeInput)
    ensures
        scrape_input_matches(args, input),
{
    ScrapeInput {
        start_urls: vec![StartUrl { url: args.url }],
        skip_comments: args.skip_comments,
        skip_user_posts: args.skip_user_posts,
        skip_community: args.skip_community,
        max_items: args.max_items,
        max_post_count: args.max_posts,
        max_comments: args.max_comments,
        max_communities_count: args.max_communities,
        max_user_count: args.max_users,
        post_date_limit: args.since,
        comment_date_limit: args.comments_since,
        proxy: ProxyConfig::default(),
    }
}

} // verus!

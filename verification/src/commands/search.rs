//! The scraper input of a search.

use vstd::prelude::*;
use crate::cli::SearchArgs;
use crate::client::{ProxyConfig, SearchInput};

verus! {

/// Whether `input` is the scraper input for `args`: the query as the only
/// search, posts searched unless comments, communities or users were asked
/// for, the chosen sort, and every other option carried over as given, with
/// the default proxy.
pub open spec fn search_input_matches(args: SearchArgs, input: SearchInput) -> bool {
    &&& input.searches.deep_view() == Some(seq![args.query@])
    &&& input.search_community_name.deep_view() == args.community.deep_view()
    &&& input.search_posts == !(args.comments || args.communities || args.users)
    &&& input.search_comments == args.comments
    &&& input.search_communities == args.communities
    &&& input.search_users == args.users
    &&& input.sort.deep_view() == Some(args.sort@)
    &&& input.time.deep_view() == args.time.deep_view()
    &&& input.include_nsfw == args.nsfw
    &&& input.max_items == args.max_items
    &&& input.max_post_count == args.max_posts
    &&& input.max_comments == args.max_comments
    &&& input.skip_comments == args.skip_comments
    &&& input.post_date_limit.deep_view() == args.since.deep_view()
    &&& input.comment_date_limit.deep_view() == args.comments_since.deep_view()
    &&& input.proxy.is_default()
}

/// Law: a search looks for exactly the kinds of item asked for: comments,
/// communities and users each when their flag is given, and posts exactly
/// when none of those flags is given, so it always looks for something and
/// never for posts alongside another kind. The page and item limits come from
/// their own options.
pub proof fn lemma_search_kinds(args: SearchArgs, input: SearchInput)
    requires
        search_input_matches(args, input),
    ensures
        input.search_comments == args.comments,
        input.search_communities == args.communities,
        input.search_users == args.users,
        (args.comments || args.communities || args.users) ==> !input.search_posts,
        !(args.comments || args.communities || args.users) ==> input.search_posts,
        input.search_posts || input.search_comments || input.search_communities || input.search_users,
        input.search_posts ==> !(input.search_comments || input.search_communities || input.search_users),
        input.max_items == args.max_items,
        input.max_post_count == args.max_posts,
        input.max_comments == args.max_comments,
{
}

/// The scraper input for a search with `args`.
pub fn search_input(args: SearchArgs) -> (input: SearchInput)
    ensures
        search_input_matches(args, input),
{
    let has_type_flag = args.comments || args.communities || args.users;
    let ghost query = args.query@;
    let input = SearchInput {
        searches: Some(vec![args.query]),
        search_community_name: args.community,
        search_posts: !has_type_flag,
        search_comments: args.comments,
        search_communities: args.communities,
        search_users: args.users,
        sort: Some(args.sort),
        time: args.time,
        include_nsfw: args.nsfw,
        max_items: args.max_items,
        max_post_count: args.max_posts,
        max_comments: args.max_comments,
        skip_comments: args.skip_comments,
        post_date_limit: args.since,
        comment_date_limit: args.comments_since,
        proxy: ProxyConfig::default(),
    };
    assert(input.searches->0.deep_view() =~= seq![query]);
    input
}

} // verus!

//! The public space: posts outside every room.
use vstd::prelude::*;

use crate::api::feed::{post_feed, FeedSource, PostFeed};
use crate::flow::{Action, Outcome};

verus! {

/// One page of the public space: posts outside every room that answer no
/// other post, newest first.
pub fn public_space_query(page: Option<String>) -> (r: (PostFeed, Action<Outcome>))
    ensures
        r == (PostFeed::AwaitUser { source: FeedSource::PublicSpace, page }, Action::<Outcome>::Authenticate),
{
    post_feed(FeedSource::PublicSpace, page)
}

} // verus!

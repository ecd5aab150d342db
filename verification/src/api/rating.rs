//! Rating posts up or down.
use vstd::prelude::*;

use crate::api::notification::PushNotification;
use crate::api::{interaction_from_lookup, interaction_of_lookup, rating_value, PostQueryResponse, RatingInteraction};
use crate::error::ApiError;
use crate::flow::{
    authenticated, authenticated_user, fail, reply, Action, Change, Event, Key, Lookup, NotifyRequest,
    Outcome, Reply, Task,
};
use crate::models::{Notification, Post, Rating, User};

verus! {

pub struct SetRatingData {
    pub post_id: String,
    pub new_rating: RatingInteraction,
}

/// `post` after a user's rating of it moved from `old` to `new`.
pub open spec fn rerated(post: Post, old: RatingInteraction, new: RatingInteraction) -> Post {
    Post { rating: (post.rating + (rating_value(new) - rating_value(old))) as i32, ..post }
}

/// The change that records a user's new rating: removing it, or storing an
/// upvote or a downvote.
pub open spec fn rating_change(user: User, post: Post, new: RatingInteraction) -> Change {
    if new == RatingInteraction::Unrated {
        Change::DeleteRating { user: user.username, post: post.id }
    } else {
        Change::ReplaceRating(Rating { user: user.username, post: post.id, is_upvote: new == RatingInteraction::Upvote })
    }
}

/// Sets the requesting user's rating of a post, in one transaction: the
/// rating is stored (or removed) and the post's score moves by the difference
/// between the new and the old rating. Answers with the post as the user sees
/// it, and tells the post's creator in the background when someone else rated
/// the post.
pub enum SetRating {
    AwaitUser { post_id: String, new: RatingInteraction },
    AwaitBegin { user: User, post_id: String, new: RatingInteraction },
    AwaitPost { user: User, new: RatingInteraction },
    AwaitOld { user: User, post: Post, new: RatingInteraction },
    AwaitRemoval { user: User, post: Post, old: RatingInteraction, new: RatingInteraction },
    AwaitReplace { user: User, post: Post, old: RatingInteraction, new: RatingInteraction },
    AwaitSave { user: User, post: Post, new: RatingInteraction },
    AwaitCommit { user: User, post: Post, new: RatingInteraction },
    AwaitDescribed { user: User, creator: String, post_id: String, new: RatingInteraction },
    AwaitSpawn { shown: crate::api::PostQueryResponse },
    AwaitRollback,
    Done,
}

pub open spec fn save_step(user: User, post: Post, old: RatingInteraction, new: RatingInteraction) -> (SetRating, Action<Outcome>) {
    (SetRating::AwaitSave { user, post: rerated(post, old, new), new }, Action::Write(Change::SavePost(rerated(post, old, new))))
}

/// The score can take the change.
pub open spec fn score_fits(post: Post, old: RatingInteraction, new: RatingInteraction) -> bool {
    i32::MIN <= post.rating + (rating_value(new) - rating_value(old)) <= i32::MAX
}

fn score_fits_exec(post: &Post, old: RatingInteraction, new: RatingInteraction) -> (r: bool)
    ensures
        r == score_fits(*post, old, new),
{
    let d = old.get_delta(&new) as i64;
    let v = post.rating as i64 + d;
    v >= i32::MIN as i64 && v <= i32::MAX as i64
}

fn save_exec(user: User, post: Post, old: RatingInteraction, new: RatingInteraction) -> (r: (SetRating, Action<Outcome>))
    requires
        score_fits(post, old, new),
    ensures
        r == save_step(user, post, old, new),
{
    let mut post = post;
    let v = post.get_rating() + old.get_delta(&new);
    post.set_rating_unchecked(v);
    let row = post.duplicate();
    (SetRating::AwaitSave { user, post, new }, Action::Write(Change::SavePost(row)))
}

impl SetRating {
    /// The post's score can take the change.
    pub open spec fn admits(&self, e: &Event) -> bool {
        match self {
            SetRating::AwaitRemoval { post, old, new, .. } => score_fits(*post, *old, *new),
            SetRating::AwaitReplace { post, old, new, .. } => e matches Event::Written(true) ==> score_fits(*post, *old, *new),
            _ => true,
        }
    }

    pub fn accepts(&self, e: &Event) -> (r: bool)
        ensures
            r == self.admits(e),
    {
        match self {
            SetRating::AwaitRemoval { post, old, new, .. } => score_fits_exec(post, *old, *new),
            SetRating::AwaitReplace { post, old, new, .. } => match e {
                Event::Written(true) => score_fits_exec(post, *old, *new),
                _ => true,
            },
            _ => true,
        }
    }

    pub open spec fn next(self, e: Event) -> (SetRating, Action<Outcome>) {
        match self {
            SetRating::AwaitUser { post_id, new } => match authenticated(e) {
                Err(x) => (SetRating::Done, fail(x)),
                Ok(user) => (SetRating::AwaitBegin { user, post_id, new }, Action::Begin),
            },
            SetRating::AwaitBegin { user, post_id, new } => match e {
                Event::Written(true) => (SetRating::AwaitPost { user, new }, Action::Fetch(Key::Post(post_id))),
                _ => (SetRating::Done, fail(ApiError::InternalServer)),
            },
            SetRating::AwaitPost { user, new } => match e {
                Event::PostRow(Lookup::Found(post)) => (
                    SetRating::AwaitOld { user, post, new },
                    Action::Fetch(Key::Rating { user: user.username, post: post.id }),
                ),
                _ => (SetRating::AwaitRollback, Action::Rollback),
            },
            SetRating::AwaitOld { user, post, new } => {
                let old = match e {
                    Event::RatingRow(l) => interaction_of_lookup(l),
                    _ => RatingInteraction::Unrated,
                };
                if new == RatingInteraction::Unrated {
                    (SetRating::AwaitRemoval { user, post, old, new }, Action::Write(rating_change(user, post, new)))
                } else {
                    (SetRating::AwaitReplace { user, post, old, new }, Action::Write(rating_change(user, post, new)))
                }
            },
            SetRating::AwaitRemoval { user, post, old, new } => save_step(user, post, old, new),
            SetRating::AwaitReplace { user, post, old, new } => match e {
                Event::Written(true) => save_step(user, post, old, new),
                _ => (SetRating::AwaitRollback, Action::Rollback),
            },
            SetRating::AwaitSave { user, post, new } => match e {
                Event::Written(true) => (SetRating::AwaitCommit { user, post, new }, Action::Commit),
                _ => (SetRating::AwaitRollback, Action::Rollback),
            },
            SetRating::AwaitCommit { user, post, new } => match e {
                Event::Written(true) => (
                    SetRating::AwaitDescribed { user, creator: post.creator, post_id: post.id, new },
                    Action::DescribeOne { user, post },
                ),
                _ => (SetRating::Done, fail(ApiError::InternalServer)),
            },
            SetRating::AwaitDescribed { user, creator, post_id, new } => match e {
                Event::DescribedOne(d) => if user.username@ != creator@ {
                    (
                        SetRating::AwaitSpawn { shown: d },
                        Action::Spawn(
                            Task::Notify(NotifyRequest::Rating { emitter: user, receiver: creator, post_id, rating: new }),
                        ),
                    )
                } else {
                    (SetRating::Done, reply(Reply::Post(d)))
                },
                _ => (SetRating::Done, fail(ApiError::InternalServer)),
            },
            SetRating::AwaitSpawn { shown } => (SetRating::Done, reply(Reply::Post(shown))),
            SetRating::AwaitRollback => (SetRating::Done, fail(ApiError::InternalServer)),
            SetRating::Done => (SetRating::Done, fail(ApiError::InternalServer)),
        }
    }

    pub fn step(self, e: Event) -> (r: (SetRating, Action<Outcome>))
        requires
            self.admits(&e),
        ensures
            r == self.next(e),
    {
        match self {
            SetRating::AwaitUser { post_id, new } => match authenticated_user(e) {
                Err(x) => (SetRating::Done, Action::Finish(Err(x))),
                Ok(user) => (SetRating::AwaitBegin { user, post_id, new }, Action::Begin),
            },
            SetRating::AwaitBegin { user, post_id, new } => match e {
                Event::Written(true) => (SetRating::AwaitPost { user, new }, Action::Fetch(Key::Post(post_id))),
                _ => (SetRating::Done, Action::Finish(Err(ApiError::InternalServer))),
            },
            SetRating::AwaitPost { user, new } => match e {
                Event::PostRow(Lookup::Found(post)) => {
                    let key = Key::Rating { user: user.get_username(), post: post.get_id() };
                    (SetRating::AwaitOld { user, post, new }, Action::Fetch(key))
                },
                _ => (SetRating::AwaitRollback, Action::Rollback),
            },
            SetRating::AwaitOld { user, post, new } => {
                let old = match e {
                    Event::RatingRow(l) => interaction_from_lookup(l),
                    _ => RatingInteraction::Unrated,
                };
                let change = if new == RatingInteraction::Unrated {
                    Change::DeleteRating { user: user.get_username(), post: post.get_id() }
                } else {
                    Change::ReplaceRating(Rating::new(&user, &post, new == RatingInteraction::Upvote))
                };
                if new == RatingInteraction::Unrated {
                    (SetRating::AwaitRemoval { user, post, old, new }, Action::Write(change))
                } else {
                    (SetRating::AwaitReplace { user, post, old, new }, Action::Write(change))
                }
            },
            SetRating::AwaitRemoval { user, post, old, new } => save_exec(user, post, old, new),
            SetRating::AwaitReplace { user, post, old, new } => match e {
                Event::Written(true) => save_exec(user, post, old, new),
                _ => (SetRating::AwaitRollback, Action::Rollback),
            },
            SetRating::AwaitSave { user, post, new } => match e {
                Event::Written(true) => (SetRating::AwaitCommit { user, post, new }, Action::Commit),
                _ => (SetRating::AwaitRollback, Action::Rollback),
            },
            SetRating::AwaitCommit { user, post, new } => match e {
                Event::Written(true) => {
                    let viewer = user.duplicate();
                    let creator = post.get_creator();
                    let post_id = post.get_id();
                    (SetRating::AwaitDescribed { user, creator, post_id, new }, Action::DescribeOne { user: viewer, post })
                },
                _ => (SetRating::Done, Action::Finish(Err(ApiError::InternalServer))),
            },
            SetRating::AwaitDescribed { user, creator, post_id, new } => match e {
                Event::DescribedOne(d) => if user.username != creator {
                    (
                        SetRating::AwaitSpawn { shown: d },
                        Action::Spawn(
                            Task::Notify(NotifyRequest::Rating { emitter: user, receiver: creator, post_id, rating: new }),
                        ),
                    )
                } else {
                    (SetRating::Done, Action::Finish(Ok(Reply::Post(d))))
                },
                _ => (SetRating::Done, Action::Finish(Err(ApiError::InternalServer))),
            },
            SetRating::AwaitSpawn { shown } => (SetRating::Done, Action::Finish(Ok(Reply::Post(shown)))),
            SetRating::AwaitRollback => (SetRating::Done, Action::Finish(Err(ApiError::InternalServer))),
            SetRating::Done => (SetRating::Done, Action::Finish(Err(ApiError::InternalServer))),
        }
    }
}

pub fn set_rating_state(data: SetRatingData) -> (r: (SetRating, Action<Outcome>))
    ensures
        r == (SetRating::AwaitUser { post_id: data.post_id, new: data.new_rating }, Action::<Outcome>::Authenticate),
{
    (SetRating::AwaitUser { post_id: data.post_id, new: data.new_rating }, Action::Authenticate)
}

/// Rating a post moves its score by the new rating's value less the old
/// one's, and setting the rating it already has leaves the score alone.
pub proof fn law_score_moves_by_delta(user: User, post: Post, old: RatingInteraction, new: RatingInteraction)
    requires
        score_fits(post, old, new),
    ensures
        save_step(user, post, old, new).1 == Action::<Outcome>::Write(Change::SavePost(rerated(post, old, new))),
        rerated(post, old, new).rating == post.rating + rating_value(new) - rating_value(old),
        old == new ==> rerated(post, old, new) == post,
{
}

/// Rating a post and then putting the old rating back saves the post as it
/// was before.
pub proof fn law_rating_round_trip(user: User, post: Post, old: RatingInteraction, new: RatingInteraction)
    requires
        score_fits(post, old, new),
    ensures
        rerated(rerated(post, old, new), new, old) == post,
        save_step(user, rerated(post, old, new), new, old).1 == Action::<Outcome>::Write(Change::SavePost(post)),
{
}

/// The users who upvoted a post, by its stored ratings (each rater's name
/// with whether the rating is an upvote).
pub open spec fn upvoters(ratings: Map<Seq<char>, bool>) -> Set<Seq<char>> {
    ratings.dom().filter(|u: Seq<char>| ratings[u])
}

/// The users who downvoted a post, by its stored ratings.
pub open spec fn downvoters(ratings: Map<Seq<char>, bool>) -> Set<Seq<char>> {
    ratings.dom().filter(|u: Seq<char>| !ratings[u])
}

/// The score that a post's stored ratings add up to: upvotes less downvotes.
pub open spec fn score_of(ratings: Map<Seq<char>, bool>) -> int {
    upvoters(ratings).len() - downvoters(ratings).len()
}

/// How `user` rated a post, by its stored ratings.
pub open spec fn stored_rating(ratings: Map<Seq<char>, bool>, user: Seq<char>) -> RatingInteraction {
    if ratings.dom().contains(user) {
        if ratings[user] {
            RatingInteraction::Upvote
        } else {
            RatingInteraction::Downvote
        }
    } else {
        RatingInteraction::Unrated
    }
}

/// A post's stored ratings once `rating_change` has recorded that `user` now
/// rates it `new`.
pub open spec fn ratings_after(ratings: Map<Seq<char>, bool>, user: Seq<char>, new: RatingInteraction) -> Map<
    Seq<char>,
    bool,
> {
    if new == RatingInteraction::Unrated {
        ratings.remove(user)
    } else {
        ratings.insert(user, new == RatingInteraction::Upvote)
    }
}

/// The lookup of `user`'s rating row agrees with a post's stored ratings.
pub open spec fn lookup_agrees(l: Lookup<Rating>, ratings: Map<Seq<char>, bool>, user: Seq<char>) -> bool {
    match l {
        Lookup::Found(r) => ratings.dom().contains(user) && ratings[user] == r.is_upvote,
        Lookup::Missing => !ratings.dom().contains(user),
        Lookup::Failed => false,
    }
}

/// A post's score stays its upvotes less its downvotes. When that holds of a
/// post's stored ratings before a user rates it, the rating read is the
/// stored one, the change written is the one `ratings_after` describes, and
/// the post saved has the score of the ratings after the change.
pub proof fn law_score_counts_ratings(
    user: User,
    post: Post,
    ratings: Map<Seq<char>, bool>,
    l: Lookup<Rating>,
    new: RatingInteraction,
)
    requires
        ratings.dom().finite(),
        post.rating == score_of(ratings),
        lookup_agrees(l, ratings, user.username@),
        score_fits(post, stored_rating(ratings, user.username@), new),
    ensures
        ({
            let old = stored_rating(ratings, user.username@);
            &&& interaction_of_lookup(l) == old
            &&& (SetRating::AwaitOld { user, post, new }).next(Event::RatingRow(l)).1 == Action::<Outcome>::Write(
                rating_change(user, post, new),
            )
            &&& save_step(user, post, old, new).1 == Action::<Outcome>::Write(
                Change::SavePost(rerated(post, old, new)),
            )
            &&& rerated(post, old, new).rating == score_of(ratings_after(ratings, user.username@, new))
        }),
{
    let u = user.username@;
    let after = ratings_after(ratings, u, new);
    let ups = upvoters(ratings);
    let downs = downvoters(ratings);
    assert(ups.finite() && downs.finite());
    if new == RatingInteraction::Unrated {
        assert(upvoters(after) =~= ups.remove(u));
        assert(downvoters(after) =~= downs.remove(u));
    } else if new == RatingInteraction::Upvote {
        assert(upvoters(after) =~= ups.insert(u));
        assert(downvoters(after) =~= downs.remove(u));
    } else {
        assert(upvoters(after) =~= ups.remove(u));
        assert(downvoters(after) =~= downs.insert(u));
    }
    if ratings.dom().contains(u) {
        if ratings[u] {
            assert(ups.contains(u) && !downs.contains(u));
        } else {
            assert(!ups.contains(u) && downs.contains(u));
        }
    } else {
        assert(!ups.contains(u) && !downs.contains(u));
    }
}

/// The literal text of an upvote notification.
pub open spec fn upvote_message(public_name: Seq<char>) -> Seq<char> {
    public_name + " liked your post!"@
}

/// Starts telling the creator of a post that `emitter` upvoted it: a
/// notification of type `Upvote` that links to the post. Other ratings send
/// nothing.
pub fn rating_state_notification_rollout(
    emitter: User,
    receiver: String,
    post_id: String,
    rating: RatingInteraction,
    now: i64,
) -> (r: Option<(PushNotification, Action<Result<(), ApiError>>)>)
    ensures
        rating != RatingInteraction::Upvote ==> r is None,
        rating == RatingInteraction::Upvote ==> (r matches Some(m) && m.0 matches PushNotification::AwaitTimeout { n } && {
            &&& n.notification_type@ == "Upvote"@
            &&& n.emitter == emitter.username
            &&& n.receiver == receiver
            &&& n.message@ == upvote_message(emitter.public_name@)
            &&& n.href@ == "?view=post&id="@ + post_id@
            &&& n.now == now
        }),
{
    if rating == RatingInteraction::Upvote {
        let message = emitter.get_public_name().concat(" liked your post!");
        let href = "?view=post&id=".to_owned().concat(post_id.as_str());
        Some(Notification::push_unchecked("Upvote".to_owned(), &emitter, receiver, message, href, now))
    } else {
        None
    }
}

/// After a rating is committed, the post is shown to the rater; the post's
/// creator is told of the rating in the background exactly when the rater is
/// someone else.
pub proof fn law_rating_notifies_the_creator(user: User, post: Post, new: RatingInteraction, d: PostQueryResponse)
    ensures
        ({
            let (s, a) = (SetRating::AwaitCommit { user, post, new }).next(Event::Written(true));
            let (s2, b) = s.next(Event::DescribedOne(d));
            &&& a == (Action::<Outcome>::DescribeOne { user, post })
            &&& user.username@ != post.creator@ ==> b == Action::<Outcome>::Spawn(
                Task::Notify(NotifyRequest::Rating { emitter: user, receiver: post.creator, post_id: post.id, rating: new }),
            ) && s2.next(Event::Spawned).1 == reply(Reply::Post(d))
            &&& user.username@ == post.creator@ ==> b == reply(Reply::Post(d))
        }),
{
}

/// The rating row written is the requesting user's of the rated post: taking
/// a rating back deletes it, and an upvote or a downvote stores it with
/// `is_upvote` telling which.
pub proof fn law_rating_row_is_the_users(user: User, post: Post, new: RatingInteraction, l: Lookup<Rating>)
    ensures
        ({
            let a = (SetRating::AwaitOld { user, post, new }).next(Event::RatingRow(l)).1;
            &&& new == RatingInteraction::Unrated ==> a == Action::<Outcome>::Write(
                Change::DeleteRating { user: user.username, post: post.id },
            )
            &&& new == RatingInteraction::Upvote ==> a == Action::<Outcome>::Write(
                Change::ReplaceRating(Rating { user: user.username, post: post.id, is_upvote: true }),
            )
            &&& new == RatingInteraction::Downvote ==> a == Action::<Outcome>::Write(
                Change::ReplaceRating(Rating { user: user.username, post: post.id, is_upvote: false }),
            )
        }),
{
}

} // verus!

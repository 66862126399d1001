use vstd::prelude::*;
use crate::entities::Follow;
use crate::reply::{created_reply, reply_to_insert, ApiError, DbFailure, Status};
use crate::time::{now_utc, Timestamp};

verus! {

/// The body of a request for one user to follow another.
#[derive(Debug)]
pub struct CreateFollowRequest {
    pub following_user_id: i32,
    pub followed_user_id: i32,
}

/// The values that the insert of a follow binds: the request's pair of
/// users and the creation time.
#[derive(Clone, Copy, Debug, PartialEq, Eq, Structural)]
pub struct NewFollow {
    pub following_user_id: i32,
    pub followed_user_id: i32,
    pub created_at: Timestamp,
}

impl NewFollow {
    /// `row` is what the database hands back after storing these values.
    pub open spec fn echoed_by(self, row: Follow) -> bool {
        &&& row.following_user_id == self.following_user_id
        &&& row.followed_user_id == self.followed_user_id
        &&& row.created_at == self.created_at
    }
}

pub open spec fn follow_greeting() -> Seq<char> {
    "Hello from follow handler!"@
}

pub open spec fn follow_action() -> Seq<char> {
    "create follow relationship"@
}

pub open spec fn follow_reply(outcome: Result<Follow, DbFailure>) -> Result<
    (Status, Follow),
    (Status, Seq<char>),
> {
    created_reply(outcome, follow_action())
}

/// Liveness probe of the follow endpoints.
pub fn hello() -> (r: &'static str)
    ensures
        r@ == follow_greeting(),
{
    "Hello from follow handler!"
}

/// The insert for `payload` at the instant `now`.
pub fn new_follow(payload: CreateFollowRequest, now: Timestamp) -> (r: NewFollow)
    ensures
        r.following_user_id == payload.following_user_id,
        r.followed_user_id == payload.followed_user_id,
        r.created_at == now,
{
    NewFollow {
        following_user_id: payload.following_user_id,
        followed_user_id: payload.followed_user_id,
        created_at: now,
    }
}

/// The insert for `payload`, stamped with the current time.
pub fn prepare_follow(payload: CreateFollowRequest) -> (r: NewFollow)
    ensures
        r.following_user_id == payload.following_user_id,
        r.followed_user_id == payload.followed_user_id,
        r.created_at.wf(),
        r.created_at.secs >= 0,
{
    let now = now_utc();
    new_follow(payload, now)
}

/// Answers a request to create a follow, given what the insert returned.
pub fn create_follow(outcome: Result<Follow, DbFailure>) -> (r: Result<
    (Status, Follow),
    ApiError,
>)
    ensures
        match r {
            Ok(v) => follow_reply(outcome) == Ok::<(Status, Follow), (Status, Seq<char>)>(v),
            Err(e) => follow_reply(outcome) == Err::<(Status, Follow), (Status, Seq<char>)>(e@),
        },
{
    reply_to_insert(outcome, "create follow relationship")
}

/// A created follow carries the pair of users that was sent.
pub proof fn follow_fields_round_trip(
    payload: CreateFollowRequest,
    insert: NewFollow,
    row: Follow,
)
    requires
        insert.following_user_id == payload.following_user_id,
        insert.followed_user_id == payload.followed_user_id,
        insert.echoed_by(row),
    ensures
        follow_reply(Ok(row)) matches Ok((_, f)) && f.following_user_id
            == payload.following_user_id && f.followed_user_id == payload.followed_user_id,
{
}

/// A created follow is answered 201 and carries the creation time that the
/// insert bound.
pub proof fn follow_server_fields(insert: NewFollow, row: Follow)
    requires
        insert.echoed_by(row),
    ensures
        follow_reply(Ok(row)) matches Ok((s, f)) && s == Status::Created && f.created_at
            == insert.created_at,
{
}

} // verus!

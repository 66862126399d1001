use vstd::prelude::*;
use vstd::string::*;
use crate::entities::Post;
use crate::reply::{created_reply, reply_to_insert, ApiError, DbFailure, Status};
use crate::time::{now_utc, Timestamp};

verus! {

/// The body of a request to create a post.
#[derive(Debug)]
pub struct CreatePostRequest {
    pub title: String,
    pub body: String,
    pub user_id: i32,
}

/// The values that the insert of a post binds: the request's fields, the
/// status that every new post starts in, and the creation time.
#[derive(Debug)]
pub struct NewPost {
    pub title: String,
    pub body: String,
    pub user_id: i32,
    pub status: String,
    pub created_at: Timestamp,
}

impl NewPost {
    /// `row` is what the database hands back after storing these values.
    pub open spec fn echoed_by(self, row: Post) -> bool {
        &&& row.title@ == self.title@
        &&& row.body@ == self.body@
        &&& row.user_id == self.user_id
        &&& row.status@ == self.status@
        &&& row.created_at == self.created_at
    }
}

/// The status of a post when it is created.
pub open spec fn published() -> Seq<char> {
    "published"@
}

pub open spec fn post_greeting() -> Seq<char> {
    "Hello from post handler!"@
}

pub open spec fn post_action() -> Seq<char> {
    "create post"@
}

pub open spec fn post_reply(outcome: Result<Post, DbFailure>) -> Result<
    (Status, Post),
    (Status, Seq<char>),
> {
    created_reply(outcome, post_action())
}

/// Liveness probe of the post endpoints.
pub fn hello() -> (r: &'static str)
    ensures
        r@ == post_greeting(),
{
    "Hello from post handler!"
}

/// The insert for `payload` at the instant `now`.
pub fn new_post(payload: CreatePostRequest, now: Timestamp) -> (r: NewPost)
    ensures
        r.title@ == payload.title@,
        r.body@ == payload.body@,
        r.user_id == payload.user_id,
        r.status@ == published(),
        r.created_at == now,
{
    NewPost {
        title: payload.title,
        body: payload.body,
        user_id: payload.user_id,
        status: String::from_str("published"),
        created_at: now,
    }
}

/// The insert for `payload`, stamped with the current time.
pub fn prepare_post(payload: CreatePostRequest) -> (r: NewPost)
    ensures
        r.title@ == payload.title@,
        r.body@ == payload.body@,
        r.user_id == payload.user_id,
        r.status@ == published(),
        r.created_at.wf(),
        r.created_at.secs >= 0,
{
    let now = now_utc();
    new_post(payload, now)
}

/// Answers a request to create a post, given what the insert returned.
pub fn create_post(outcome: Result<Post, DbFailure>) -> (r: Result<(Status, Post), ApiError>)
    ensures
        match r {
            Ok(v) => post_reply(outcome) == Ok::<(Status, Post), (Status, Seq<char>)>(v),
            Err(e) => post_reply(outcome) == Err::<(Status, Post), (Status, Seq<char>)>(e@),
        },
{
    reply_to_insert(outcome, "create post")
}

/// A created post carries the title, body and author that were sent.
pub proof fn post_fields_round_trip(payload: CreatePostRequest, insert: NewPost, row: Post)
    requires
        insert.title@ == payload.title@,
        insert.body@ == payload.body@,
        insert.user_id == payload.user_id,
        insert.echoed_by(row),
    ensures
        post_reply(Ok(row)) matches Ok((_, p)) && p.title@ == payload.title@ && p.body@
            == payload.body@ && p.user_id == payload.user_id,
{
}

/// A created post is answered 201 and carries the id that the database
/// assigned, and the status and creation time that the insert bound.
pub proof fn post_server_fields(insert: NewPost, row: Post)
    requires
        insert.echoed_by(row),
    ensures
        post_reply(Ok(row)) matches Ok((s, p)) && s == Status::Created && p.id == row.id
            && p.status@ == insert.status@ && p.created_at == insert.created_at,
{
}

} // verus!

use vstd::prelude::*;
use crate::entities::User;
use crate::reply::{created_reply, reply_to_insert, ApiError, DbFailure, Status};
use crate::time::{now_utc, Timestamp};

verus! {

/// The body of a request to create a user.
#[derive(Debug)]
pub struct CreateUserRequest {
    pub username: String,
    pub role: String,
}

/// The values that the insert of a user binds: the request's fields and the
/// creation time.
#[derive(Debug)]
pub struct NewUser {
    pub username: String,
    pub role: String,
    pub created_at: Timestamp,
}

impl NewUser {
    /// `row` is what the database hands back after storing these values.
    pub open spec fn echoed_by(self, row: User) -> bool {
        &&& row.username@ == self.username@
        &&& row.role@ == self.role@
        &&& row.created_at == self.created_at
    }
}

pub open spec fn user_greeting() -> Seq<char> {
    "Hello from user handler!"@
}

pub open spec fn user_action() -> Seq<char> {
    "create user"@
}

pub open spec fn user_reply(outcome: Result<User, DbFailure>) -> Result<
    (Status, User),
    (Status, Seq<char>),
> {
    created_reply(outcome, user_action())
}

/// Liveness probe of the user endpoints.
pub fn hello() -> (r: &'static str)
    ensures
        r@ == user_greeting(),
{
    "Hello from user handler!"
}

/// The insert for `payload` at the instant `now`.
pub fn new_user(payload: CreateUserRequest, now: Timestamp) -> (r: NewUser)
    ensures
        r.username@ == payload.username@,
        r.role@ == payload.role@,
        r.created_at == now,
{
    NewUser { username: payload.username, role: payload.role, created_at: now }
}

/// The insert for `payload`, stamped with the current time.
pub fn prepare_user(payload: CreateUserRequest) -> (r: NewUser)
    ensures
        r.username@ == payload.username@,
        r.role@ == payload.role@,
        r.created_at.wf(),
        r.created_at.secs >= 0,
{
    let now = now_utc();
    new_user(payload, now)
}

/// Answers a request to create a user, given what the insert returned.
pub fn create_user(outcome: Result<User, DbFailure>) -> (r: Result<(Status, User), ApiError>)
    ensures
        match r {
            Ok(v) => user_reply(outcome) == Ok::<(Status, User), (Status, Seq<char>)>(v),
            Err(e) => user_reply(outcome) == Err::<(Status, User), (Status, Seq<char>)>(e@),
        },
{
    reply_to_insert(outcome, "create user")
}

/// A created user carries the username and role that were sent.
pub proof fn user_fields_round_trip(payload: CreateUserRequest, insert: NewUser, row: User)
    requires
        insert.username@ == payload.username@,
        insert.role@ == payload.role@,
        insert.echoed_by(row),
    ensures
        user_reply(Ok(row)) matches Ok((_, u)) && u.username@ == payload.username@ && u.role@
            == payload.role@,
{
}

/// A created user is answered 201 and carries the id that the database
/// assigned and the creation time that the insert bound.
pub proof fn user_server_fields(insert: NewUser, row: User)
    requires
        insert.echoed_by(row),
    ensures
        user_reply(Ok(row)) matches Ok((s, u)) && s == Status::Created && u.id == row.id
            && u.created_at == insert.created_at,
{
}

} // verus!

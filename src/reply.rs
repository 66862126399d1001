use vstd::prelude::*;
use vstd::string::*;

verus! {

/// The HTTP statuses that the handlers answer with.
#[derive(Clone, Copy, Debug, PartialEq, Eq, Structural)]
pub enum Status {
    Success,
    Created,
    BadRequest,
    InternalServerError,
}

pub open spec fn status_code(s: Status) -> u16 {
    match s {
        Status::Success => 200,
        Status::Created => 201,
        Status::BadRequest => 400,
        Status::InternalServerError => 500,
    }
}

impl Status {
    /// The numeric HTTP status code.
    pub fn code(&self) -> (r: u16)
        ensures
            r == status_code(*self),
    {
        match self {
            Status::Success => 200,
            Status::Created => 201,
            Status::BadRequest => 400,
            Status::InternalServerError => 500,
        }
    }
}

/// What the database reported when an insert failed.
///
/// `Database` is an error raised by the database server itself; `constraint`
/// names the integrity rule it broke, if any. `Other` is every failure that
/// the server did not report: the connection, the pool, the protocol.
#[derive(Debug)]
pub enum DbFailure {
    Database { message: String, constraint: Option<String> },
    Other { message: String },
}

/// A failed request: the status and a message that carries the cause.
#[derive(Debug)]
pub struct ApiError {
    pub status: Status,
    pub message: String,
}

impl View for ApiError {
    type V = (Status, Seq<char>);

    open spec fn view(&self) -> (Status, Seq<char>) {
        (self.status, self.message@)
    }
}

pub open spec fn constraint_prefix() -> Seq<char> {
    "Database constraint violation: "@
}

pub open spec fn database_prefix() -> Seq<char> {
    "Database error: "@
}

/// The status that a database failure is answered with: a broken integrity
/// rule is the client's fault, anything else the server's.
pub open spec fn failure_status(f: DbFailure) -> Status {
    match f {
        DbFailure::Database { constraint, .. } => if constraint is Some {
            Status::BadRequest
        } else {
            Status::InternalServerError
        },
        DbFailure::Other { .. } => Status::InternalServerError,
    }
}

/// The message that a database failure is answered with; `action` says what
/// was attempted ("create user").
pub open spec fn failure_message(f: DbFailure, action: Seq<char>) -> Seq<char> {
    match f {
        DbFailure::Database { message, constraint } => if constraint is Some {
            constraint_prefix() + message@
        } else {
            database_prefix() + message@
        },
        DbFailure::Other { message } => "Failed to "@ + action + ": "@ + message@,
    }
}

pub open spec fn failure_reply(f: DbFailure, action: Seq<char>) -> (Status, Seq<char>) {
    (failure_status(f), failure_message(f, action))
}

/// Turns a failed insert into the error that the request is answered with.
pub fn reply_to_failure(f: DbFailure, action: &str) -> (r: ApiError)
    ensures
        r@ == failure_reply(f, action@),
{
    match f {
        DbFailure::Database { message, constraint } => {
            match constraint {
                Some(_) => ApiError {
                    status: Status::BadRequest,
                    message: String::from_str("Database constraint violation: ").concat(
                        message.as_str(),
                    ),
                },
                None => ApiError {
                    status: Status::InternalServerError,
                    message: String::from_str("Database error: ").concat(message.as_str()),
                },
            }
        },
        DbFailure::Other { message } => {
            let text = String::from_str("Failed to ").concat(action).concat(": ").concat(
                message.as_str(),
            );
            ApiError { status: Status::InternalServerError, message: text }
        },
    }
}

} // verus!

verus! {

/// The reply to an insert: the stored row with status 201, or the failure's
/// own error.
pub open spec fn created_reply<T>(outcome: Result<T, DbFailure>, action: Seq<char>) -> Result<
    (Status, T),
    (Status, Seq<char>),
> {
    match outcome {
        Ok(row) => Ok((Status::Created, row)),
        Err(f) => Err(failure_reply(f, action)),
    }
}

/// Answers an insert with the row that the database handed back, or with
/// the error that its failure maps to.
pub fn reply_to_insert<T>(outcome: Result<T, DbFailure>, action: &str) -> (r: Result<
    (Status, T),
    ApiError,
>)
    ensures
        match r {
            Ok(v) => created_reply(outcome, action@) == Ok::<(Status, T), (Status, Seq<char>)>(v),
            Err(e) => created_reply(outcome, action@) == Err::<(Status, T), (Status, Seq<char>)>(
                e@,
            ),
        },
{
    match outcome {
        Ok(row) => Ok((Status::Created, row)),
        Err(f) => Err(reply_to_failure(f, action)),
    }
}

/// A write that breaks an integrity rule of the schema (a duplicate, a
/// missing referenced row) is answered 400, never 500.
pub proof fn constraint_violation_is_bad_request<T>(
    message: String,
    constraint: String,
    action: Seq<char>,
)
    ensures
        ({
            let f = DbFailure::Database { message, constraint: Some(constraint) };
            created_reply::<T>(Err(f), action) == Err::<(Status, T), (Status, Seq<char>)>(
                (Status::BadRequest, constraint_prefix() + message@),
            )
        }),
        status_code(Status::BadRequest) == 400,
{
}

/// Every other failure (the database unreachable, a dropped connection, an
/// error that names no integrity rule) is answered 500, and the reply holds
/// no row.
pub proof fn other_failure_is_server_error<T>(f: DbFailure, action: Seq<char>)
    requires
        !(f matches DbFailure::Database { constraint: Some(_), .. }),
    ensures
        created_reply::<T>(Err(f), action) matches Err((s, _)) && s == Status::InternalServerError,
        status_code(Status::InternalServerError) == 500,
{
}

} // verus!

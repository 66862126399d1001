use vstd::prelude::*;
use crate::time::Timestamp;

verus! {

/// A user as stored: the id and the creation time are assigned on insert.
#[derive(Debug)]
pub struct User {
    pub id: i32,
    pub username: String,
    pub role: String,
    pub created_at: Timestamp,
}

/// A post as stored; `user_id` refers to its author, `status` is set on insert.
#[derive(Debug)]
pub struct Post {
    pub id: i32,
    pub title: String,
    pub body: String,
    pub user_id: i32,
    pub status: String,
    pub created_at: Timestamp,
}

/// One user following another. The pair is the row's identity; whether it
/// must be unique, or may name one user twice, is up to the schema.
#[derive(Debug)]
pub struct Follow {
    pub following_user_id: i32,
    pub followed_user_id: i32,
    pub created_at: Timestamp,
}

} // verus!

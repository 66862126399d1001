use social_api::entities::{Follow, Post, User};
use social_api::follow_handler::{self, create_follow, new_follow, prepare_follow, CreateFollowRequest};
use social_api::post_handler::{self, create_post, new_post, prepare_post, CreatePostRequest};
use social_api::reply::{reply_to_failure, DbFailure, Status};
use social_api::root_handler;
use social_api::time::Timestamp;
use social_api::user_handler::{self, create_user, new_user, prepare_user, CreateUserRequest};

fn at(secs: i64) -> Timestamp {
    Timestamp { secs, nanos: 0 }
}

fn constraint_failure(message: &str, constraint: &str) -> DbFailure {
    DbFailure::Database { message: message.to_string(), constraint: Some(constraint.to_string()) }
}

#[test]
fn create_user_scenario() {
    let now = at(1_707_609_600);
    let request = CreateUserRequest { username: "john_doe".to_string(), role: "user".to_string() };
    let insert = new_user(request, now);
    assert_eq!(insert.username, "john_doe");
    assert_eq!(insert.role, "user");
    assert_eq!(insert.created_at, now);
    let row = User { id: 1, username: insert.username, role: insert.role, created_at: now };
    let (status, user) = create_user(Ok(row)).unwrap();
    assert_eq!(status, Status::Created);
    assert_eq!(status.code(), 201);
    assert_eq!(user.id, 1);
    assert_eq!(user.username, "john_doe");
    assert_eq!(user.role, "user");
    assert_eq!(user.created_at, now);
}

#[test]
fn create_post_scenario() {
    let now = at(1_707_609_600);
    let request = CreatePostRequest {
        title: "My First Post".to_string(),
        body: "This is the content of my first post".to_string(),
        user_id: 1,
    };
    let insert = new_post(request, now);
    assert_eq!(insert.status, "published");
    assert_eq!(insert.user_id, 1);
    let row = Post {
        id: 7,
        title: insert.title,
        body: insert.body,
        user_id: insert.user_id,
        status: insert.status,
        created_at: insert.created_at,
    };
    let (status, post) = create_post(Ok(row)).unwrap();
    assert_eq!(status.code(), 201);
    assert_eq!(post.id, 7);
    assert_eq!(post.title, "My First Post");
    assert_eq!(post.body, "This is the content of my first post");
    assert_eq!(post.user_id, 1);
    assert_eq!(post.status, "published");
    assert_eq!(post.created_at, now);
}

#[test]
fn duplicate_follow_is_bad_request() {
    let now = at(1_707_609_600);
    let first = new_follow(CreateFollowRequest { following_user_id: 1, followed_user_id: 2 }, now);
    assert_eq!(first.following_user_id, 1);
    assert_eq!(first.followed_user_id, 2);
    let row = Follow { following_user_id: 1, followed_user_id: 2, created_at: now };
    let (status, follow) = create_follow(Ok(row)).unwrap();
    assert_eq!(status.code(), 201);
    assert_eq!(follow.following_user_id, 1);
    assert_eq!(follow.followed_user_id, 2);

    let failure = constraint_failure("duplicate key value", "follows_pkey");
    let err = create_follow(Err(failure)).unwrap_err();
    assert_eq!(err.status, Status::BadRequest);
    assert_eq!(err.status.code(), 400);
    assert_eq!(err.message, "Database constraint violation: duplicate key value");
}

#[test]
fn hello_probes_answer_fixed_text() {
    assert_eq!(user_handler::hello(), "Hello from user handler!");
    assert_eq!(post_handler::hello(), "Hello from post handler!");
    assert_eq!(follow_handler::hello(), "Hello from follow handler!");
    assert_eq!(root_handler::hello(), "Hello, World!");
}

#[test]
fn hello_probes_repeat_identically() {
    assert_eq!(user_handler::hello(), user_handler::hello());
    assert_eq!(post_handler::hello(), post_handler::hello());
    assert_eq!(follow_handler::hello(), follow_handler::hello());
}

#[test]
fn foreign_key_violation_is_bad_request() {
    let failure = constraint_failure("insert violates foreign key", "posts_user_id_fkey");
    let err = create_post(Err(failure)).unwrap_err();
    assert_eq!(err.status.code(), 400);
    assert_eq!(err.message, "Database constraint violation: insert violates foreign key");
}

#[test]
fn database_error_without_constraint_is_server_error() {
    let failure = DbFailure::Database { message: "syntax error".to_string(), constraint: None };
    let err = create_user(Err(failure)).unwrap_err();
    assert_eq!(err.status, Status::InternalServerError);
    assert_eq!(err.status.code(), 500);
    assert_eq!(err.message, "Database error: syntax error");
}

#[test]
fn outage_is_server_error() {
    let down = || DbFailure::Other { message: "pool timed out".to_string() };
    let err = create_user(Err(down())).unwrap_err();
    assert_eq!(err.status.code(), 500);
    assert_eq!(err.message, "Failed to create user: pool timed out");
    let err = create_post(Err(down())).unwrap_err();
    assert_eq!(err.message, "Failed to create post: pool timed out");
    let err = create_follow(Err(down())).unwrap_err();
    assert_eq!(err.message, "Failed to create follow relationship: pool timed out");
}

#[test]
fn reply_to_failure_names_the_action() {
    let err = reply_to_failure(DbFailure::Other { message: "closed".to_string() }, "do it");
    assert_eq!(err.status, Status::InternalServerError);
    assert_eq!(err.message, "Failed to do it: closed");
}

#[test]
fn status_codes() {
    assert_eq!(Status::Success.code(), 200);
    assert_eq!(Status::Created.code(), 201);
    assert_eq!(Status::BadRequest.code(), 400);
    assert_eq!(Status::InternalServerError.code(), 500);
}

#[test]
fn prepared_inserts_are_stamped_now() {
    // 2023-11-14T22:13:20Z: any clock that runs these tests is past it.
    let floor: i64 = 1_700_000_000;
    let user = prepare_user(CreateUserRequest { username: "a".to_string(), role: "admin".to_string() });
    assert_eq!(user.username, "a");
    assert_eq!(user.role, "admin");
    assert!(user.created_at.secs > floor);
    assert!(user.created_at.nanos < 1_000_000_000);
    let post = prepare_post(CreatePostRequest { title: "t".to_string(), body: "b".to_string(), user_id: 3 });
    assert_eq!(post.status, "published");
    assert!(post.created_at.secs > floor);
    let follow = prepare_follow(CreateFollowRequest { following_user_id: 4, followed_user_id: 5 });
    assert_eq!((follow.following_user_id, follow.followed_user_id), (4, 5));
    assert!(follow.created_at.secs > floor);
}

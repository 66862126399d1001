pub mod time;
pub mod reply;
pub mod entities;
pub mod user_handler;
pub mod post_handler;
pub mod follow_handler;
pub mod root_handler;

pub mod types;
pub mod handlers;
pub mod messages;
pub mod members;
pub mod reactions;
pub mod search;

pub mod types;
pub mod handlers;
pub mod extractor;
pub mod invitations;
pub mod members;

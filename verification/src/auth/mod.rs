pub mod extractor;
pub mod handlers;
pub mod jwt;
pub mod password;
pub mod refresh_token;

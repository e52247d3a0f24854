pub mod handlers;
pub mod fcm;

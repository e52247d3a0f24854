pub mod types;
pub mod worker;
pub mod scheduler;

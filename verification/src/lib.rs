use vstd::prelude::*;

pub mod assignments;
pub mod auth;
pub mod channels;
pub mod classes;
pub mod config;
pub mod config_view;
pub mod crypto;
pub mod error;
pub mod exams;
pub mod ids;
pub mod jobs;
pub mod json;
pub mod notifications;
pub mod payments;
pub mod storage;
pub mod text;
pub mod tutors;
pub mod workspaces;
pub mod validation;

verus! {

} // verus!

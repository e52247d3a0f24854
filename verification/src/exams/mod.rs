pub mod grading;
pub mod selection;
pub mod exams;
pub mod attempts;
pub mod banks;

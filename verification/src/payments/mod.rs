pub mod webhook;
pub mod onboarding;
pub mod paystack;
pub mod enrollment;
pub mod tuition;

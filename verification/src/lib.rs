pub mod json;
pub mod event;
pub mod session;

//! Domain models: plain data for the resources the API serves, with the
//! validation rules of their request builders.

pub mod attachment;
pub mod custom_field;
pub mod project;
pub mod section;
pub mod story;
pub mod tag;
pub mod task;
pub mod user;
pub mod workspace;

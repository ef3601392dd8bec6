//! Resource names and request builders for the service's study and trial
//! endpoints.

pub mod study;
pub mod trial;

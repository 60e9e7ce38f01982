//! The data model and the state shared by the request handlers.

pub mod catalog;
pub mod data;
pub mod orders;
pub mod status;

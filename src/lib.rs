//! A small task tracker: task records, an identifier-ordered store with its
//! add / remove / complete transformations, and the textual listing.
pub mod task;
pub mod store;
pub mod listing;
pub mod command;
pub mod laws;

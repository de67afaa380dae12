//! Pushes new localization keys into a remote translation project: input
//! validation, the paged listing of existing key names, planning of the bulk
//! create request, and reading of its response.
pub mod create;
pub mod error;
pub mod input;
pub mod listing;
pub mod reconcile;

//! Decision core of a wallpaper-collection synchronizer.
//!
//! A run mirrors the collections of a remote account into a local
//! directory: it fetches the wallpapers that are missing or incomplete and
//! removes the local files that belong to no collection any more. This
//! library decides what such a run does and leaves the doing (requests,
//! file access, waiting) to its caller.
//!
//! - [`wallhaven`] is the synchronizer itself, a state machine from what
//!   happened to what to do next.
//! - [`remote`] builds the addresses to ask and selects the collections.
//! - [`paging`] walks the pages of a collection and paces the requests.
//! - [`download`] plans the work for one wallpaper.
//! - [`completeness`] tells a complete local file from a partial one.
//! - [`reconcile`] chooses the local files to remove.
//! - [`config`] resolves the configuration of a run.
//! - [`records`] and [`error`] hold the values that are passed around.
//! - [`text`] holds the text helpers that the others are built on.
//! - [`laws`] states what holds of every run.

pub mod completeness;
pub mod config;
pub mod download;
pub mod error;
pub mod laws;
pub mod paging;
pub mod reconcile;
pub mod records;
pub mod remote;
pub mod text;
pub mod wallhaven;

//! The session engine of a Kavita rich-presence mirror.
//!
//! The engine decides what a reader is reading right now and how that is to be
//! shown as a status. It takes the answers of a Kavita server, already
//! decoded, and the time; it asks for nothing itself. Its parts, leaves first:
//!
//! - [`text`]: texts as sequences of characters;
//! - [`clock`]: points in time, and reading the server's timestamps;
//! - [`model`]: the records and the settings;
//! - [`history`]: the latest event of a reading history;
//! - [`resolver`]: one chapter and one series from answers of several shapes;
//! - [`classify`]: book or chapter, and the volume label;
//! - [`visibility`]: the blacklists;
//! - [`session`]: the session that the resolved records make;
//! - [`render`]: the payload a session is shown with;
//! - [`tracker`]: what is shown, kept from poll to poll;
//! - [`cycle`]: one poll as a state machine;
//! - [`poll_laws`]: what holds of every poll;
//! - [`release`]: where the running version stands against the latest release.
//!
//! Every function is verified against a contract over the views of its
//! arguments. Four calls are taken on trust: the standard library's
//! lower-casing, the two timestamp readers of `chrono`, and the comparison of
//! two versions by `semver`.

pub mod classify;
pub mod clock;
pub mod cycle;
pub mod history;
pub mod model;
pub mod poll_laws;
pub mod release;
pub mod render;
pub mod resolver;
pub mod session;
pub mod text;
pub mod tracker;
pub mod visibility;

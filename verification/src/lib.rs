//! An interactive habit tracker: a list of named habits, each with an
//! append-only log of dated free-text entries, driven by a text menu.
//!
//! The library holds all of the program's logic: the data model
//! ([`habit::Habit`], [`habit::Entry`]) and the menu state machine
//! ([`tracker::Tracker`]). An executable front end only reads lines,
//! prints lines, and asks the tracker what to do next.

pub mod habit;
pub mod laws;
pub mod numbers;
pub mod tracker;

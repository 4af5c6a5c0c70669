//! Core model of an interactive package browser: a sorted snapshot of local
//! packages, an incremental search with a debounced remote (AUR) query, a
//! two-mode key handler, and the text projections that the renderer shows.
//!
//! Everything here is plain logic over strings, vectors and integers; the
//! terminal, the package database, the network and the installer subprocess
//! live outside the library and talk to it through plain values.

pub mod aur;
pub mod input;
pub mod snapshot;
pub mod stat;
pub mod state;
pub mod text;
pub mod ui;

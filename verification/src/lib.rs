//! Embedded-content lifecycle manager for a multi-tab browser shell.
//!
//! The library plans and checks every decision the shell makes about its
//! tab surfaces: the registry that maps tab identifiers to surface labels,
//! the lifecycle commands (create, show, hide, close, navigate), the
//! geometry that keeps surfaces aligned beneath the native chrome, the
//! metadata heuristics (titles, favicons), and the bounded media poll.
//! The host windowing system and the network are driven by a thin
//! unverified shell that executes the commands this library produces.

pub mod commands;
pub mod events;
pub mod favicon;
pub mod geometry;
pub mod html;
pub mod lifecycle;
pub mod pipeline;
pub mod registry;
pub mod scripts;
pub mod text;
pub mod urlinfo;

//! Desktop-shell backend launcher.
//!
//! The library decides everything about launching the backend script: the
//! entry-point path under the resource directory, the ordered list of
//! candidate interpreters, the first-success search over that list, and the
//! exact message reported for each outcome. The host binary only performs the
//! process spawns and hands the results back, one attempt at a time.

pub mod commands;
pub mod launcher;
pub mod laws;

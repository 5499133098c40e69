//! Decision and rendering logic of a small snapshot tool for git working trees.
//!
//! The library computes everything the tool shows or hands to git: the
//! timestamp text that names commits and log files, the boxed and coloured
//! console lines, the answer to the initialisation prompt, and the plan of a
//! commit. Running processes, reading the console and touching the disk are
//! left to the program around it.

pub mod answer;
pub mod commit;
pub mod render;
pub mod session;
pub mod timestamp;

pub use timestamp::{format_timestamp, get_timestamp};

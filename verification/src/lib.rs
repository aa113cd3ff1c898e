//! The core of a small file explorer: turning what was read from a directory
//! into an ordered listing, keeping the navigation history, and deciding what
//! each interaction with an entry asks of the file system.

pub mod duration;
pub mod entry;
pub mod explorer;
pub mod navigation;
pub mod order;
pub mod paths;
pub mod size;
pub mod snapshot;
pub mod table;
pub mod text;

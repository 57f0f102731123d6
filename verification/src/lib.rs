//! Verified core of a desktop-wallpaper refresher.
//!
//! A refresh walks a shuffled list of candidate image sources until one hands
//! back a JPEG body, writes that body under a counter-based file name,
//! re-encodes it as a bitmap for the desktop API, and removes the files of
//! earlier counters. The modules here hold that pipeline's decisions — the
//! retry walk, the format gate, the counter text, the file naming and
//! staleness rules, the busy-flag guard and the startup-registration rules —
//! while the callers around them perform the fetches, the disk writes and the
//! desktop calls and feed the outcomes back in.

pub mod convert;
pub mod counter;
pub mod fetch;
pub mod files;
pub mod guard;
pub mod pipeline;
pub mod settings;
pub mod sources;
pub mod startup;
pub mod text;

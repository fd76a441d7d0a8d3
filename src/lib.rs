//! Age-based archiving of a directory tree: files older than a threshold are
//! copied under a per-station, per-date folder, checked by digest, and then
//! removed from their source.

pub mod clock;
pub mod digest;
pub mod layout;
pub mod relocate;
pub mod station;
pub mod walker;

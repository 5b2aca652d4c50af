//! Video library management: resolving the storage folder, deciding whether a
//! fetched video may be stored, listing stored videos in lexicographic order,
//! and planning playback launches with a per-file fallback strategy.
//!
//! The library works on plain values (strings, byte vectors, directory entry
//! names). All file-system, network and process effects are performed by the
//! surrounding application, which feeds their results back in.
pub mod errors;
pub mod library;
pub mod listing;
pub mod paths;
pub mod playback;
pub mod text;

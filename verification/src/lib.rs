//! Watches the system clipboard for bitmap images and persists each one as a
//! PNG file.
//!
//! The library holds the verified core of the watcher: synthesis of the file
//! header that turns a clipboard device-independent bitmap into a decodable
//! file, the extraction protocol that brackets every clipboard access with a
//! balanced acquire/release pair, the persister that derives a collision-safe
//! file name from a capture timestamp, and the listener that turns each
//! change notification into at most one persisted artifact.

pub mod bmp;
pub mod codec;
pub mod formats;
pub mod extract;
pub mod persist;
pub mod text;
pub mod listener;

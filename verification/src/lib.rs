//! Routing of chat-completion requests across interchangeable backend
//! adapters, with automatic fallback when an adapter is unavailable or
//! fails, together with the lifecycle bookkeeping for a locally supervised
//! proxy-server binary (install, configure, start, stop, update check).
//!
//! Network and file I/O live outside this crate; the library holds the
//! decision logic, data models and text formatting, each with a proved
//! contract.

pub mod error;
pub mod types;
pub mod text;
pub mod credentials;
pub mod wire;
pub mod osdirs;
pub mod adapters;
pub mod platform;
pub mod supervisor;
pub mod router;
pub mod playback;
pub mod midi;

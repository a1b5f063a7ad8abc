//! Persists and restores the geometry (size and position) of an
//! application's main window.
//!
//! The library holds the decisions of that cycle: the record and its default,
//! the text form of the record, the fail-safe loading policy, the fail-visible
//! saving sequence, how a loaded record is applied to a window at startup and
//! what is captured when the window closes. Reading and writing files and
//! talking to the windowing system happen around it.
pub mod codec;
pub mod state;
pub mod store;
pub mod window;

pub use state::SimpleWindowState;
pub use store::SaveError;

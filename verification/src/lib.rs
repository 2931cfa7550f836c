//! Watch a configuration file and keep a typed, shared value in sync with it.
//!
//! A [`WatchedFile`](watched_file::WatchedFile) owns the path and declared
//! format of one configuration file and dispatches change events to
//! registered callbacks.  An [`AutoUpdated`](auto_updated::AutoUpdated) cell
//! holds the last successfully parsed value behind a verified reader-writer
//! lock; the refresh path overwrites it only on a successful parse, so a
//! malformed rewrite never clears the last good configuration.

pub mod auto_updated;
pub mod codec;
pub mod error;
pub mod event;
pub mod format;
pub mod refresh;
pub mod registry;
pub mod reload;
pub mod watched_file;
pub mod watcher;

pub use auto_updated::AutoUpdated;
pub use error::{IoError, ParseError, ReadError};
pub use event::ChangeEvent;
pub use format::FileFormat;
pub use refresh::RefreshOutcome;
pub use registry::CallbackRegistry;
pub use reload::Reloadable;
pub use watched_file::{EventReport, WatchedFile};
pub use watcher::{UpdateType, Watcher};

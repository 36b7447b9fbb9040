//! Incremental tailing of a growing file, as a state machine.
//!
//! The library decides; the host performs. Each poll cycle, the host reads the
//! open handle from [`TailedFile::offset`] to its end and hands the bytes to
//! [`TailedFile::follow`]. Every call of `follow` answers with the next
//! [`Action`] to perform (look at the handle's metadata, open the path afresh,
//! adopt the freshly opened handle, write text out), and the host reports what
//! came back as the next [`Event`].
pub mod laws;
pub mod meta;
pub mod model;
pub mod tail;
pub mod text;

pub use meta::FileMeta;
pub use model::{Check, TailError};
pub use tail::{Action, Event, TailedFile};

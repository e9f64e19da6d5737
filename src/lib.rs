//! Atomic in-place editing of a file.
//!
//! New content is written to a temporary file beside the edited file and
//! renamed over it on save, with the original optionally moved to a backup
//! path first. The filesystem work is done by a driver that performs the
//! actions this library asks for and reports their outcomes; every decision
//! of the protocol (which path, which step, which error) is made and proved
//! here.
pub mod error;
pub mod path;
pub mod backup;
pub mod protocol;
pub mod session;
pub mod open;
pub mod model;

pub use backup::Backup;
pub use error::{InPlaceError, InPlaceErrorKind};
pub use open::{InPlace, OpenStage, OpenStep};
pub use protocol::{Action, Event};
pub use session::{CloseStage, CloseStep, InPlaceFile};

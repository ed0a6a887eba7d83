//! Temporary files with collision-resistant random names.
//!
//! The library verifies the logic of a temporary-file protocol: generating
//! unpredictable candidate names, retrying creation on a name collision up to
//! a fixed bound, and the move-only lifecycle of a named temporary file
//! (persist, persist-if-absent, reopen, explicit close, conversion to a bare
//! handle). The filesystem primitives themselves — exclusive creation, atomic
//! replacement, removal, reopening — are supplied by the caller as closures,
//! and every result is related to the contract of the closure that produced
//! it.

pub mod error;
pub mod file;
pub mod unnamed;
pub mod util;

pub use error::ErrorKind;
pub use file::NamedTempFile;
pub use file::NamedTempFileBuilder;
pub use file::PersistError;
pub use unnamed::TempFile;

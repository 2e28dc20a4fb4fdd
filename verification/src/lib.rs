//! Provisioning of the `sqls` language server binary.
//!
//! The crate holds the decisions of the installer: where a version is
//! installed, which archive of a release belongs to a platform, which
//! directories are stale, and the order in which the outside work (file probes,
//! release lookup, download, permission fix, cleanup) is requested. The
//! outside work itself is done by the caller, who feeds its outcome back as
//! events.

pub mod platform;
pub mod layout;
pub mod release;
pub mod error;
pub mod cleanup;
pub mod machine;
pub mod laws;

pub use platform::PlatformKey;
pub use release::{Asset, ReleaseInfo};
pub use error::{ErrorKind, ProvisionError};
pub use machine::{Action, Event, Provisioner, Status};

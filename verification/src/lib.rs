//! MacPack bundle launcher: manifest resolution and launch pipeline.
//!
//! Given a packaged application bundle, the launcher unpacks it, finds the
//! `macpack.toml` manifest under one of two candidate layouts, resolves the
//! declared executable under `bin/`, normalizes its permissions, launches it
//! and propagates its exit status.  The decision logic of that pipeline lives
//! here, stated over sequences of characters; the surrounding process does the
//! reading, writing and spawning.

pub mod laws;
pub mod manifest;
pub mod outcome;
pub mod paths;
pub mod resolve;
pub mod toml_doc;

pub use manifest::{DescriptorView, ManifestFault, PackageDescriptor};
pub use outcome::{ErrorClass, ProcessOutcome, RunError};
pub use paths::join_path;
pub use resolve::{ManifestLocation, ManifestPlan, ResolveError};

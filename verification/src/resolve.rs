//! Manifest and executable resolution: the launcher's decision pipeline.
//!
//! The manifest is looked for under two candidate layouts: at the extraction
//! root itself, or one level down in a folder named after the bundle's stem.
//! The primary candidate wins unconditionally when it exists; when neither
//! exists resolution fails naming the fallback candidate.  The executable is
//! then expected at `<manifest dir>/bin/<exec>`.

use vstd::prelude::*;

use crate::manifest::{ManifestFault, PackageDescriptor};
use crate::paths::{file_stem_of, file_stem_spec, join_path, join_spec};

verus! {

/// The manifest's file name inside a bundle.
pub open spec fn manifest_file_name() -> Seq<char> {
    "macpack.toml"@
}

/// Where a run failed to resolve its manifest or executable.
#[derive(Debug)]
pub enum ResolveError {
    /// No stem can be derived from the bundle's file name.
    StemUnavailable,
    /// The manifest exists in neither candidate location; `checked` is the
    /// fallback candidate, the last path probed.
    NotFound { checked: String },
    /// The manifest exists but yields no descriptor.
    ParseError { path: String, fault: ManifestFault },
    /// The declared executable is absent; `path` is where it was expected.
    ExecutableMissing { path: String },
}

/// The two candidate manifest paths and the fallback's directory, all
/// computed before any probing: the primary candidate
/// `<root>/macpack.toml`, the fallback directory `<root>/<stem>`, and the
/// fallback candidate `<root>/<stem>/macpack.toml`.
pub struct ManifestPlan {
    pub primary: String,
    pub fallback_dir: String,
    pub fallback: String,
}

/// The planned candidate paths, as a function of the extraction root and the
/// bundle path; `None` when the bundle path yields no stem.
pub open spec fn plan_spec(root: Seq<char>, bundle: Seq<char>) -> Option<
    (Seq<char>, Seq<char>, Seq<char>),
> {
    match file_stem_spec(bundle) {
        None => None,
        Some(stem) => Some(
            (
                join_spec(root, manifest_file_name()),
                join_spec(root, stem),
                join_spec(join_spec(root, stem), manifest_file_name()),
            ),
        ),
    }
}

/// Computes the candidate manifest paths for a run.  Fails exactly when the
/// bundle path yields no stem.
pub fn manifest_plan(root: &str, bundle: &str) -> (r: Result<ManifestPlan, ResolveError>)
    ensures
        r is Ok <==> plan_spec(root@, bundle@) is Some,
        r matches Ok(p) ==> plan_spec(root@, bundle@) == Some(
            (p.primary@, p.fallback_dir@, p.fallback@),
        ),
        r matches Err(e) ==> e is StemUnavailable,
{
    match file_stem_of(bundle) {
        None => Err(ResolveError::StemUnavailable),
        Some(stem) => {
            let primary = join_path(root, "macpack.toml");
            let fallback_dir = join_path(root, stem.as_str());
            let fallback = join_path(fallback_dir.as_str(), "macpack.toml");
            Ok(ManifestPlan { primary, fallback_dir, fallback })
        },
    }
}

/// The directory that contains the chosen manifest and the manifest's own
/// path.
pub struct ManifestLocation {
    pub dir: String,
    pub path: String,
}

/// Which manifest candidate a run settles on, given whether each candidate
/// exists: the primary wins whenever it exists, else the fallback; when
/// neither exists the fallback candidate is the path reported as checked.
pub open spec fn pick_spec(
    root: Seq<char>,
    plan: (Seq<char>, Seq<char>, Seq<char>),
    primary_exists: bool,
    fallback_exists: bool,
) -> Result<(Seq<char>, Seq<char>), Seq<char>> {
    if primary_exists {
        Ok((root, plan.0))
    } else if fallback_exists {
        Ok((plan.1, plan.2))
    } else {
        Err(plan.2)
    }
}

/// Settles on a manifest candidate, the primary taking precedence; fails
/// exactly when neither exists, naming the fallback candidate.
pub fn pick_manifest(
    root: &str,
    plan: &ManifestPlan,
    primary_exists: bool,
    fallback_exists: bool,
) -> (r: Result<ManifestLocation, ResolveError>)
    ensures
        r is Ok <==> (primary_exists || fallback_exists),
        r matches Ok(l) ==> pick_spec(
            root@,
            (plan.primary@, plan.fallback_dir@, plan.fallback@),
            primary_exists,
            fallback_exists,
        ) == Ok::<_, Seq<char>>((l.dir@, l.path@)),
        r matches Err(e) ==> e matches ResolveError::NotFound { checked } && checked@
            == plan.fallback@,
{
    if primary_exists {
        Ok(ManifestLocation { dir: root.to_owned(), path: plan.primary.clone() })
    } else if fallback_exists {
        Ok(ManifestLocation { dir: plan.fallback_dir.clone(), path: plan.fallback.clone() })
    } else {
        Err(ResolveError::NotFound { checked: plan.fallback.clone() })
    }
}

/// Where the declared executable is expected: `<manifest dir>/bin/<exec>`.
pub open spec fn executable_path_spec(dir: Seq<char>, executable: Seq<char>) -> Seq<char> {
    join_spec(join_spec(dir, "bin"@), executable)
}

/// Computes the executable's path under the manifest directory's `bin`
/// folder.
pub fn executable_path(manifest_dir: &str, descriptor: &PackageDescriptor) -> (r: String)
    ensures
        r@ == executable_path_spec(manifest_dir@, descriptor.executable@),
{
    let bin = join_path(manifest_dir, "bin");
    join_path(bin.as_str(), descriptor.executable.as_str())
}

/// Accepts the resolved executable exactly when it exists on disk; a missing
/// one is an application-author failure naming the expected path.
pub fn check_executable(path: &str, exists: bool) -> (r: Result<(), ResolveError>)
    ensures
        r is Ok <==> exists,
        r matches Err(e) ==> e matches ResolveError::ExecutableMissing { path: p } && p@ == path@,
{
    if exists {
        Ok(())
    } else {
        Err(ResolveError::ExecutableMissing { path: path.to_owned() })
    }
}

} // verus!

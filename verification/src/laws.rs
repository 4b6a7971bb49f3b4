//! The resolution pipeline's laws, stated over the specification functions
//! that the executable functions' contracts use.

use vstd::prelude::*;

use crate::manifest::{field_strs_of, manifest_fields_of, ManifestFault};
use crate::outcome::{class_of, ErrorClass, RunError};
use crate::paths::{file_stem_spec, join_spec};
use crate::resolve::{manifest_file_name, pick_spec, plan_spec, ResolveError};
use crate::toml_doc::doc_model;

verus! {

/// For every bundle laid out either way — the manifest at the extraction
/// root, or nested in the folder named after the bundle's stem — resolution
/// settles on a candidate: planning succeeds, picking succeeds, and the
/// manifest text's descriptor exists with fields drawn exactly from the
/// document.
pub proof fn law_resolution_succeeds(
    root: Seq<char>,
    bundle: Seq<char>,
    primary_exists: bool,
    fallback_exists: bool,
    content: Seq<char>,
)
    requires
        file_stem_spec(bundle) is Some,
        primary_exists || fallback_exists,
        manifest_fields_of(content) is Some,
    ensures
        plan_spec(root, bundle) matches Some(plan) && pick_spec(
            root,
            plan,
            primary_exists,
            fallback_exists,
        ) is Ok,
        primary_exists ==> (plan_spec(root, bundle) matches Some(plan) && pick_spec(
            root,
            plan,
            primary_exists,
            fallback_exists,
        ) == Ok::<_, Seq<char>>((root, plan.0))),
        !primary_exists ==> (plan_spec(root, bundle) matches Some(plan) && pick_spec(
            root,
            plan,
            primary_exists,
            fallback_exists,
        ) == Ok::<_, Seq<char>>((plan.1, plan.2))),
        manifest_fields_of(content) matches Some(d) && doc_model(content) matches Some(m) && {
            &&& d.name == field_strs_of(m)["name"@]
            &&& d.version == field_strs_of(m)["version"@]
            &&& d.author == field_strs_of(m)["author"@]
            &&& d.executable == field_strs_of(m)["exec"@]
        },
{
}

/// When the manifest exists in neither candidate location, resolution fails,
/// and the path it names as checked is the fallback candidate
/// `<root>/<stem>/macpack.toml`.
pub proof fn law_missing_manifest_names_fallback(root: Seq<char>, bundle: Seq<char>)
    requires
        file_stem_spec(bundle) is Some,
    ensures
        file_stem_spec(bundle) matches Some(stem) && plan_spec(root, bundle) matches Some(plan)
            && pick_spec(root, plan, false, false) == Err::<(Seq<char>, Seq<char>), _>(
            join_spec(join_spec(root, stem), manifest_file_name()),
        ),
{
}

/// A malformed manifest document yields no descriptor, and the resulting
/// failure is classed as the bundle author's — distinguishable from the
/// user's environment.
pub proof fn law_malformed_manifest_is_author_fault(
    content: Seq<char>,
    path: String,
    fault: ManifestFault,
)
    requires
        doc_model(content) is None,
    ensures
        manifest_fields_of(content) is None,
        class_of(RunError::Resolve(ResolveError::ParseError { path, fault }))
            == ErrorClass::Author,
{
}

/// A declared executable absent from `bin/` is an application-author
/// failure, classed apart from the environment and from launch failures.
pub proof fn law_missing_executable_is_author_fault(path: String)
    ensures
        class_of(RunError::Resolve(ResolveError::ExecutableMissing { path }))
            == ErrorClass::Author,
{
}

} // verus!

use macpack_runtime::manifest::parse_manifest;
use macpack_runtime::outcome::{launcher_exit_code, normalized_mode, outcome_of};
use macpack_runtime::paths::{file_stem_of, sanitize_entry_path};
use macpack_runtime::resolve::{
    check_executable, executable_path, manifest_plan, pick_manifest,
};
use macpack_runtime::{ErrorClass, ManifestFault, ProcessOutcome, ResolveError, RunError};

const NESTED_MANIFEST: &str = "[package]\nname = \"Hello\"\nversion = \"1.0\"\nauthor = \"Ada\"\nexec = \"hello\"\n";

#[test]
fn nested_manifest_fields_match_document() {
    let d = parse_manifest(NESTED_MANIFEST).unwrap();
    assert_eq!(d.name, "Hello");
    assert_eq!(d.version, "1.0");
    assert_eq!(d.author, "Ada");
    assert_eq!(d.executable, "hello");
    assert!(d.description.is_none());
}

#[test]
fn flat_manifest_fields_match_document() {
    let doc = "name = \"Tool\"\nversion = \"0.3\"\nauthor = \"Bo\"\nexec = \"tool\"\ndescription = \"a tool\"\n";
    let d = parse_manifest(doc).unwrap();
    assert_eq!(d.name, "Tool");
    assert_eq!(d.version, "0.3");
    assert_eq!(d.author, "Bo");
    assert_eq!(d.executable, "tool");
    assert_eq!(d.description.as_deref(), Some("a tool"));
}

#[test]
fn nested_table_takes_precedence_over_flat_keys() {
    let doc = "name = \"Outer\"\nversion = \"9\"\nauthor = \"X\"\nexec = \"outer\"\n[package]\nname = \"Inner\"\nversion = \"1\"\nauthor = \"Y\"\nexec = \"inner\"\n";
    let d = parse_manifest(doc).unwrap();
    assert_eq!(d.name, "Inner");
    assert_eq!(d.executable, "inner");
}

#[test]
fn malformed_document_is_a_syntax_fault() {
    let r = parse_manifest("not [valid toml");
    assert!(matches!(r, Err(ManifestFault::Syntax)));
}

#[test]
fn missing_required_field_is_a_fields_fault() {
    let doc = "[package]\nname = \"Hello\"\nversion = \"1.0\"\nexec = \"hello\"\n";
    assert!(matches!(parse_manifest(doc), Err(ManifestFault::Fields)));
}

#[test]
fn non_string_required_field_is_a_fields_fault() {
    let doc = "[package]\nname = \"Hello\"\nversion = 1\nauthor = \"Ada\"\nexec = \"hello\"\n";
    assert!(matches!(parse_manifest(doc), Err(ManifestFault::Fields)));
}

#[test]
fn empty_executable_is_a_fields_fault() {
    let doc = "[package]\nname = \"Hello\"\nversion = \"1.0\"\nauthor = \"Ada\"\nexec = \"\"\n";
    assert!(matches!(parse_manifest(doc), Err(ManifestFault::Fields)));
}

#[test]
fn malformed_manifest_is_flagged_as_author_error() {
    let e = RunError::Resolve(ResolveError::ParseError {
        path: "/scratch/macpack.toml".to_string(),
        fault: ManifestFault::Syntax,
    });
    assert_eq!(e.classify(), ErrorClass::Author);
    let msg = e.message();
    assert_eq!(
        msg,
        "Developer Error: failed to parse /scratch/macpack.toml Developer errors are issues that need a developer. If you're not one of them, contact the developer of the app."
    );
}

#[test]
fn stem_of_simple_bundle() {
    assert_eq!(file_stem_of("demo.mpb").unwrap(), "demo");
}

#[test]
fn stem_ignores_directories_and_keeps_inner_dots() {
    assert_eq!(file_stem_of("/downloads/archive.tar.gz").unwrap(), "archive.tar");
    assert_eq!(file_stem_of("dir/app.mpb").unwrap(), "app");
}

#[test]
fn stem_of_dotfile_and_plain_names() {
    assert_eq!(file_stem_of(".hidden").unwrap(), ".hidden");
    assert_eq!(file_stem_of("noext").unwrap(), "noext");
    assert_eq!(file_stem_of("dir/").unwrap(), "dir");
}

#[test]
fn stem_absent_for_unusable_paths() {
    assert!(file_stem_of("").is_none());
    assert!(file_stem_of("/").is_none());
    assert!(file_stem_of("..").is_none());
    assert!(file_stem_of("a/..").is_none());
}

#[test]
fn plan_computes_both_candidates() {
    let plan = manifest_plan("/scratch", "demo.mpb").unwrap();
    assert_eq!(plan.primary, "/scratch/macpack.toml");
    assert_eq!(plan.fallback_dir, "/scratch/demo");
    assert_eq!(plan.fallback, "/scratch/demo/macpack.toml");
}

#[test]
fn plan_fails_without_a_stem() {
    assert!(matches!(
        manifest_plan("/scratch", ".."),
        Err(ResolveError::StemUnavailable)
    ));
}

#[test]
fn primary_candidate_wins_when_present() {
    let plan = manifest_plan("/scratch", "demo.mpb").unwrap();
    let loc = pick_manifest("/scratch", &plan, true, true).unwrap();
    assert_eq!(loc.dir, "/scratch");
    assert_eq!(loc.path, "/scratch/macpack.toml");
}

#[test]
fn fallback_candidate_used_when_primary_absent() {
    let plan = manifest_plan("/scratch", "demo.mpb").unwrap();
    let loc = pick_manifest("/scratch", &plan, false, true).unwrap();
    assert_eq!(loc.dir, "/scratch/demo");
    assert_eq!(loc.path, "/scratch/demo/macpack.toml");
}

#[test]
fn missing_manifest_names_the_fallback_candidate() {
    let plan = manifest_plan("/scratch", "demo.mpb").unwrap();
    let r = pick_manifest("/scratch", &plan, false, false);
    match r {
        Err(ResolveError::NotFound { checked }) => {
            assert_eq!(checked, "/scratch/demo/macpack.toml");
        },
        _ => panic!("expected a not-found error naming the fallback candidate"),
    }
}

#[test]
fn executable_path_is_under_bin() {
    let d = parse_manifest(NESTED_MANIFEST).unwrap();
    let p = executable_path("/scratch/demo", &d);
    assert_eq!(p, "/scratch/demo/bin/hello");
}

#[test]
fn missing_executable_fails_before_any_launch() {
    let r = check_executable("/scratch/bin/hello", false);
    match r {
        Err(e @ ResolveError::ExecutableMissing { .. }) => {
            let run = RunError::Resolve(e);
            assert_eq!(run.classify(), ErrorClass::Author);
        },
        _ => panic!("expected an executable-missing error"),
    }
    assert!(check_executable("/scratch/bin/hello", true).is_ok());
}

#[test]
fn normalized_mode_grants_execute_to_everyone() {
    let m = normalized_mode();
    assert_eq!(m, 0o755);
    assert_eq!(m & 0o111, 0o111);
    assert_eq!(m & 0o444, 0o444);
    assert_eq!(m & 0o200, 0o200);
}

#[test]
fn child_outcome_maps_to_exit_codes() {
    let ok = outcome_of(true, Some(0));
    assert!(matches!(ok, ProcessOutcome::Success));
    let failed = outcome_of(false, Some(3));
    assert!(matches!(failed, ProcessOutcome::Failed { code: Some(3) }));
    let signalled = outcome_of(false, None);
    assert!(matches!(signalled, ProcessOutcome::Failed { code: None }));
    assert_eq!(launcher_exit_code(&Ok(())), 0);
    assert_eq!(launcher_exit_code(&Err(RunError::Child { code: Some(3) })), 1);
}

#[test]
fn scenario_flat_bundle_resolves_and_succeeds() {
    let root = "/scratch/mcpak_1";
    let bundle = "/home/u/hello.mpb";
    let plan = manifest_plan(root, bundle).unwrap();
    let loc = pick_manifest(root, &plan, true, false).unwrap();
    assert_eq!(loc.path, "/scratch/mcpak_1/macpack.toml");
    let d = parse_manifest(NESTED_MANIFEST).unwrap();
    assert_eq!(d.name, "Hello");
    let exe = executable_path(&loc.dir, &d);
    assert_eq!(exe, "/scratch/mcpak_1/bin/hello");
    check_executable(&exe, true).unwrap();
    let outcome = outcome_of(true, Some(0));
    let run: Result<(), RunError> = match outcome {
        ProcessOutcome::Success => Ok(()),
        ProcessOutcome::Failed { code } => Err(RunError::Child { code }),
    };
    assert_eq!(launcher_exit_code(&run), 0);
}

#[test]
fn scenario_nested_bundle_resolves_via_fallback() {
    let root = "/scratch/mcpak_2";
    let bundle = "/home/u/demo.mpb";
    let plan = manifest_plan(root, bundle).unwrap();
    let loc = pick_manifest(root, &plan, false, true).unwrap();
    assert_eq!(loc.dir, "/scratch/mcpak_2/demo");
    let d = parse_manifest(NESTED_MANIFEST).unwrap();
    let exe = executable_path(&loc.dir, &d);
    assert_eq!(exe, "/scratch/mcpak_2/demo/bin/hello");
}

#[test]
fn scenario_no_manifest_anywhere_fails_with_not_found() {
    let root = "/scratch/mcpak_3";
    let bundle = "/home/u/demo.mpb";
    let plan = manifest_plan(root, bundle).unwrap();
    let r = pick_manifest(root, &plan, false, false);
    let e = match r {
        Err(e) => e,
        Ok(_) => panic!("resolution must fail when no candidate exists"),
    };
    let run = RunError::Resolve(e);
    assert_eq!(
        run.message(),
        "macpack.toml not found in either the extracted folder or the fallback folder: /scratch/mcpak_3/demo/macpack.toml"
    );
    let outcome: Result<(), RunError> = Err(run);
    assert_ne!(launcher_exit_code(&outcome), 0);
}

#[test]
fn sanitizer_neutralizes_traversal_and_absolute_names() {
    assert_eq!(sanitize_entry_path("../evil.txt"), "evil.txt");
    assert_eq!(sanitize_entry_path("/etc/passwd"), "etc/passwd");
    assert_eq!(sanitize_entry_path("a/./b/../c"), "a/b/c");
    assert_eq!(sanitize_entry_path("a//b/"), "a/b");
    assert_eq!(sanitize_entry_path("...."), "....");
    assert_eq!(sanitize_entry_path(".."), "");
    assert_eq!(sanitize_entry_path(""), "");
}

#[test]
fn sanitizer_is_idempotent_on_examples() {
    for name in ["../evil.txt", "/etc/passwd", "a/./b/../c", "dir/file.bin"] {
        let once = sanitize_entry_path(name);
        let twice = sanitize_entry_path(&once);
        assert_eq!(once, twice);
    }
}

#[test]
fn non_string_description_is_a_fields_fault() {
    let doc = "[package]\nname = \"Hello\"\nversion = \"1.0\"\nauthor = \"Ada\"\nexec = \"hello\"\ndescription = 5\n";
    assert!(matches!(parse_manifest(doc), Err(ManifestFault::Fields)));
}

#[test]
fn missing_executable_message_names_the_expected_path() {
    let e = RunError::Resolve(ResolveError::ExecutableMissing {
        path: "/scratch/demo/bin/hello".to_string(),
    });
    assert_eq!(
        e.message(),
        "Developer Error: executable declared in macpack.toml not found: /scratch/demo/bin/hello Developer errors are issues that need a developer. If you're not one of them, contact the developer of the app."
    );
}

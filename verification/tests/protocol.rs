use plugin_scripts::GLOBAL_API_SCRIPT_FILE_LIST_PATH;
use plugin_scripts::aggregate::collect_global_api_script_paths;
use plugin_scripts::aggregate::save_global_api_scripts_paths;
use plugin_scripts::env::lookup;
use plugin_scripts::error::PluginError;
use plugin_scripts::paths::strip_base_prefix;
use plugin_scripts::paths::trim_trailing_separators_str;
use plugin_scripts::publish::define_global_api_script_path;
use plugin_scripts::publish::resolve_script_path;
use plugin_scripts::read::read_global_api_scripts;
use plugin_scripts::read::resolve_manifest_entries;

fn env_of(pairs: &[(&str, &str)]) -> Vec<(String, String)> {
    pairs
        .iter()
        .map(|(k, v)| (k.to_string(), v.to_string()))
        .collect()
}

#[test]
fn publish_aggregate_read_round_trip() {
    let base = "/out/base";
    let asset = "/out/base/external/pkg/api-iife.js";

    let provider_env = env_of(&[("BAZEL_OUTPUT_BASE", base)]);
    let directive = define_global_api_script_path(&provider_env, asset).unwrap();
    assert_eq!(directive.key, "GLOBAL_API_SCRIPT_PATH");
    assert_eq!(directive.value, "external/pkg/api-iife.js");

    let dependent_env = env_of(&[("DEP_PKG_GLOBAL_API_SCRIPT_PATH", &directive.value)]);
    let manifest = save_global_api_scripts_paths(&dependent_env, None);

    let entries = read_global_api_scripts(Some(&manifest)).unwrap().unwrap();
    assert_eq!(entries, vec!["external/pkg/api-iife.js".to_string()]);

    let resolved = resolve_manifest_entries(base, &entries);
    assert_eq!(resolved, vec![asset.to_string()]);
}

#[test]
fn trailing_separator_on_the_base_still_matches() {
    let env = env_of(&[("BAZEL_OUTPUT_BASE", "/out/base/")]);
    let directive = define_global_api_script_path(&env, "/out/base/x.js").unwrap();
    assert_eq!(directive.value, "x.js");

    let root_env = env_of(&[("BAZEL_OUTPUT_BASE", "/")]);
    let from_root = define_global_api_script_path(&root_env, "/x.js").unwrap();
    assert_eq!(from_root.value, "x.js");

    assert_eq!(trim_trailing_separators_str("/out/base//"), "/out/base");
    assert_eq!(trim_trailing_separators_str("/"), "");
    assert_eq!(trim_trailing_separators_str("/out/base"), "/out/base");
}

#[test]
fn well_formed_manifest_with_extra_whitespace_decodes() {
    let entries = read_global_api_scripts(Some(" [ \"a.js\" , \"b.js\" ] "))
        .unwrap()
        .unwrap();
    assert_eq!(entries, vec!["a.js".to_string(), "b.js".to_string()]);
}

#[test]
fn manifest_entries_resolve_against_the_base_in_order() {
    let entries = vec![
        "external/a.js".to_string(),
        "/already/absolute.js".to_string(),
        "b.js".to_string(),
    ];
    let resolved = resolve_manifest_entries("/out/base", &entries);
    assert_eq!(
        resolved,
        vec![
            "/out/base/external/a.js".to_string(),
            "/already/absolute.js".to_string(),
            "/out/base/b.js".to_string(),
        ]
    );
    let with_slash = resolve_manifest_entries("/out/base/", &entries);
    assert_eq!(with_slash[0], "/out/base/external/a.js");
}

#[test]
fn framework_override_precedes_caller_override() {
    let env = env_of(&[
        ("DEP_TAURI_GLOBAL_API_SCRIPT_PATH", "tauri/global.js"),
        ("DEP_Y_GLOBAL_API_SCRIPT_PATH", "y.js"),
        ("DEP_Z_GLOBAL_API_SCRIPT_PATH", "z.js"),
    ]);
    let paths = collect_global_api_script_paths(&env, Some("caller.js".to_string()));
    assert_eq!(paths.len(), 3);
    assert_eq!(paths[0], "tauri/global.js");
    let rest: Vec<&str> = paths[1..].iter().map(|s| s.as_str()).collect();
    assert!(rest.contains(&"y.js"));
    assert!(rest.contains(&"z.js"));
}

#[test]
fn caller_override_comes_first_without_framework_entry() {
    let env = env_of(&[
        ("DEP_Y_GLOBAL_API_SCRIPT_PATH", "y.js"),
        ("DEP_Z_GLOBAL_API_SCRIPT_PATH", "z.js"),
    ]);
    let paths = collect_global_api_script_paths(&env, Some("caller.js".to_string()));
    assert_eq!(paths.len(), 3);
    assert_eq!(paths[0], "caller.js");
    let rest: Vec<&str> = paths[1..].iter().map(|s| s.as_str()).collect();
    assert!(rest.contains(&"y.js"));
    assert!(rest.contains(&"z.js"));
}

#[test]
fn last_framework_entry_wins() {
    let env = env_of(&[
        ("DEP_TAURI_GLOBAL_API_SCRIPT_PATH", "first.js"),
        ("DEP_TAURI_GLOBAL_API_SCRIPT_PATH", "second.js"),
    ]);
    let paths = collect_global_api_script_paths(&env, None);
    assert_eq!(paths, vec!["second.js".to_string()]);
}

#[test]
fn unrelated_environment_entries_are_ignored() {
    let env = env_of(&[
        ("PATH", "/usr/bin"),
        ("DEP_PKG_OTHER_METADATA", "x"),
        ("GLOBAL_API_SCRIPT_PATH", "no-dep-prefix.js"),
        ("DEP_PKG_GLOBAL_API_SCRIPT_PATH", "kept.js"),
    ]);
    let paths = collect_global_api_script_paths(&env, None);
    assert_eq!(paths, vec!["kept.js".to_string()]);
}

#[test]
fn absent_manifest_is_not_an_error() {
    let r = read_global_api_scripts(None);
    assert!(matches!(r, Ok(None)));
}

#[test]
fn corrupt_manifest_is_an_error() {
    for corrupt in ["not json at all", "{\"a\": 1}", "[1, 2, 3]", "[\"unterminated"] {
        let r = read_global_api_scripts(Some(corrupt));
        assert!(matches!(r, Err(PluginError::DecodingFailure(_))));
    }
}

#[test]
fn empty_manifest_decodes_to_no_entries() {
    let env: Vec<(String, String)> = Vec::new();
    let manifest = save_global_api_scripts_paths(&env, None);
    assert_eq!(manifest, "[]");
    let entries = read_global_api_scripts(Some(&manifest)).unwrap().unwrap();
    assert!(entries.is_empty());
}

#[test]
fn outside_base_is_rejected_without_a_directive() {
    let env = env_of(&[("BAZEL_OUTPUT_BASE", "/out/base")]);
    let r = define_global_api_script_path(&env, "/elsewhere/api.js");
    match r {
        Err(PluginError::PathOutsideBase(p)) => assert_eq!(p, "/elsewhere/api.js"),
        other => panic!("expected PathOutsideBase, got {:?}", other),
    }
}

#[test]
fn sibling_directory_does_not_count_as_inside_base() {
    assert!(strip_base_prefix("/out/bases/api.js", "/out/base").is_none());
    assert_eq!(
        strip_base_prefix("/out/base/api.js", "/out/base").as_deref(),
        Some("api.js")
    );
    assert_eq!(strip_base_prefix("/out/base", "/out/base").as_deref(), Some(""));
}

#[test]
fn missing_output_base_is_fatal() {
    let env: Vec<(String, String)> = Vec::new();
    let r = define_global_api_script_path(&env, "/out/base/api.js");
    match r {
        Err(PluginError::MissingEnvironmentVariable(name)) => {
            assert_eq!(name, "BAZEL_OUTPUT_BASE")
        }
        other => panic!("expected MissingEnvironmentVariable, got {:?}", other),
    }
}

#[test]
fn relative_input_needs_the_source_root() {
    let env: Vec<(String, String)> = Vec::new();
    let r = resolve_script_path(&env, "assets/api.js");
    match r {
        Err(PluginError::MissingEnvironmentVariable(name)) => {
            assert_eq!(name, "CARGO_MANIFEST_DIR")
        }
        other => panic!("expected MissingEnvironmentVariable, got {:?}", other),
    }
}

#[test]
fn resolve_joins_relative_input_onto_source_root() {
    let env = env_of(&[("CARGO_MANIFEST_DIR", "/src/pkg")]);
    assert_eq!(
        resolve_script_path(&env, "assets/api.js").unwrap(),
        "/src/pkg/assets/api.js"
    );
    let env_slash = env_of(&[("CARGO_MANIFEST_DIR", "/src/pkg/")]);
    assert_eq!(
        resolve_script_path(&env_slash, "assets/api.js").unwrap(),
        "/src/pkg/assets/api.js"
    );
    assert_eq!(resolve_script_path(&env, "/abs/api.js").unwrap(), "/abs/api.js");
}

#[test]
fn aggregate_is_idempotent_on_an_unchanged_snapshot() {
    let env = env_of(&[
        ("DEP_A_GLOBAL_API_SCRIPT_PATH", "a.js"),
        ("DEP_B_GLOBAL_API_SCRIPT_PATH", "b.js"),
    ]);
    let first = save_global_api_scripts_paths(&env, Some("o.js".to_string()));
    let second = save_global_api_scripts_paths(&env, Some("o.js".to_string()));
    assert_eq!(first, second);
}

#[test]
fn manifest_entries_survive_json_escaping() {
    let tricky = "dir with \"quotes\"/back\\slash.js";
    let env = env_of(&[("DEP_T_GLOBAL_API_SCRIPT_PATH", tricky)]);
    let manifest = save_global_api_scripts_paths(&env, None);
    assert_ne!(manifest, tricky);
    assert_eq!(manifest, serde_json::to_string(&vec![tricky]).unwrap());
    let entries = read_global_api_scripts(Some(&manifest)).unwrap().unwrap();
    assert_eq!(entries, vec![tricky.to_string()]);
}

#[test]
fn lookup_returns_the_first_matching_value() {
    let env = env_of(&[("K", "one"), ("K", "two"), ("L", "three")]);
    assert_eq!(lookup(&env, "K").as_deref(), Some("one"));
    assert_eq!(lookup(&env, "L").as_deref(), Some("three"));
    assert_eq!(lookup(&env, "M"), None);
}

#[test]
fn error_messages_carry_their_context() {
    let e = PluginError::MissingEnvironmentVariable("BAZEL_OUTPUT_BASE".to_string());
    assert_eq!(
        e.message(),
        "required environment variable is not set: BAZEL_OUTPUT_BASE"
    );
    let io = PluginError::IOFailure("a.js".to_string(), "permission denied".to_string());
    assert_eq!(io.message(), "failed to access a.js: permission denied");
    let res = PluginError::PathResolutionFailure("gone.js".to_string());
    assert_eq!(
        res.message(),
        "failed to canonicalize global API script path: gone.js"
    );
    let out = PluginError::PathOutsideBase("/tmp/x.js".to_string());
    assert_eq!(
        out.message(),
        "global API script path is outside the output base: /tmp/x.js"
    );
    let enc = PluginError::EncodingFailure("detail".to_string());
    assert_eq!(
        enc.message(),
        "failed to serialize global API script paths: detail"
    );
    let dec = PluginError::DecodingFailure("expected an array".to_string());
    assert_eq!(
        dec.message(),
        "failed to parse global API script paths: expected an array"
    );
}

#[test]
fn manifest_file_name_is_fixed() {
    assert_eq!(GLOBAL_API_SCRIPT_FILE_LIST_PATH, "__global-api-script.js");
}

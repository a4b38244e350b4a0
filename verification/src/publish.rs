//! The publisher: a provider announces its script's base-relative path.
//!
//! The provider's build step resolves the script path against its own
//! source root when it is relative, canonicalizes it (outside this
//! library), relativizes it against the shared output base, and emits the
//! result as one directive under the fixed key. Only the relative form is
//! ever transmitted, so a dependent can resolve it against the same base
//! on its own machine.

use vstd::prelude::*;
use vstd::string::StringExecFns;
use crate::env::lookup;
use crate::env::lookup_spec;
use crate::error::PluginError;
use crate::paths::is_absolute;
use crate::paths::is_absolute_path;
use crate::paths::join_path;
use crate::paths::join_path_str;
use crate::paths::strip_base;
use crate::paths::strip_base_prefix;
use crate::paths::trim_trailing_separators;
use crate::paths::trim_trailing_separators_str;

verus! {

/// One key/value datum handed to the orchestrator's environment channel.
/// The orchestrator prefixes the key with its per-provider namespace
/// before a dependent sees it.
#[derive(Debug)]
pub struct Directive {
    pub key: String,
    pub value: String,
}

/// Resolve the input path of a publish call: an absolute path is taken as
/// it stands, a relative one is joined onto the provider's source root,
/// read from the required variable `CARGO_MANIFEST_DIR`; a relative path
/// without that variable is a fatal error.
pub fn resolve_script_path(env: &Vec<(String, String)>, path: &str) -> (r: Result<
    String,
    PluginError,
>)
    ensures
        (if is_absolute_path(path@) {
            r matches Ok(s) && s@ == path@
        } else {
            match lookup_spec(env@, "CARGO_MANIFEST_DIR"@) {
                Some(dir) => r matches Ok(s) && s@ == join_path(dir, path@),
                None => r matches Err(e) && e matches PluginError::MissingEnvironmentVariable(
                    name,
                ) && name@ == "CARGO_MANIFEST_DIR"@,
            }
        }),
{
    if is_absolute(path) {
        Ok(path.to_owned())
    } else {
        match lookup(env, "CARGO_MANIFEST_DIR") {
            Some(dir) => Ok(join_path_str(dir.as_str(), path)),
            None => Err(
                PluginError::MissingEnvironmentVariable(String::from_str("CARGO_MANIFEST_DIR")),
            ),
        }
    }
}

/// Publish the canonical path of a provider's global API script: make it
/// relative to the output base — read from the required variable
/// `BAZEL_OUTPUT_BASE` and trimmed of trailing separators — and return
/// the directive to emit under the fixed key `GLOBAL_API_SCRIPT_PATH`. A
/// path that does not lie under the output base was produced outside the
/// sandboxed build root and is a fatal error; no directive is produced
/// for it.
pub fn define_global_api_script_path(env: &Vec<(String, String)>, canonical_path: &str) -> (r:
    Result<Directive, PluginError>)
    ensures
        (match lookup_spec(env@, "BAZEL_OUTPUT_BASE"@) {
            None => r matches Err(e) && e matches PluginError::MissingEnvironmentVariable(name)
                && name@ == "BAZEL_OUTPUT_BASE"@,
            Some(base) => match strip_base(canonical_path@, trim_trailing_separators(base)) {
                Some(rel) => r matches Ok(d) && d.key@ == "GLOBAL_API_SCRIPT_PATH"@ && d.value@
                    == rel,
                None => r matches Err(e) && e matches PluginError::PathOutsideBase(p) && p@
                    == canonical_path@,
            },
        }),
{
    let base = match lookup(env, "BAZEL_OUTPUT_BASE") {
        Some(base) => base,
        None => {
            return Err(
                PluginError::MissingEnvironmentVariable(String::from_str("BAZEL_OUTPUT_BASE")),
            );
        },
    };
    let trimmed_base = trim_trailing_separators_str(base.as_str());
    match strip_base_prefix(canonical_path, trimmed_base.as_str()) {
        Some(rel) => Ok(
            Directive { key: String::from_str("GLOBAL_API_SCRIPT_PATH"), value: rel },
        ),
        None => Err(PluginError::PathOutsideBase(canonical_path.to_owned())),
    }
}

} // verus!

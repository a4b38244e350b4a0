//! The reader: a dependent loads the manifest back, at a later build or
//! run phase.
//!
//! The caller looks for the fixed manifest file in its output directory
//! and hands over its text, or nothing when the file does not exist. An
//! absent manifest is a normal state — no provider was ever aggregated —
//! and yields no entries; a manifest that is present but malformed is
//! always a fatal decoding error, never silently ignored. The decoded
//! entries keep manifest order; each is then resolved against the output
//! base, and the caller reads every resolved script, in that order.

use vstd::prelude::*;
use crate::codec::decode_script_paths;
use crate::codec::parsed_paths;
use crate::error::PluginError;
use crate::paths::is_absolute;
use crate::paths::is_absolute_path;
use crate::paths::join_path;
use crate::paths::join_path_str;

verus! {

/// Decode a manifest into its ordered list of base-relative script
/// paths. `None` in means no manifest file existed and `Ok(None)` comes
/// back. A present text fails — with a `DecodingFailure` — exactly when
/// the decoder rejects it as a JSON array of strings; every accepted
/// text yields exactly the list it decodes to, in manifest order.
pub fn read_global_api_scripts(manifest: Option<&str>) -> (r: Result<
    Option<Vec<String>>,
    PluginError,
>)
    ensures
        (match manifest {
            None => r matches Ok(contents) && contents is None,
            Some(text) => {
                &&& (r is Err <==> parsed_paths(text@) is None)
                &&& (r matches Err(e) ==> e is DecodingFailure)
                &&& (r matches Ok(contents) ==> contents matches Some(paths)
                    && Some(paths.deep_view()) == parsed_paths(text@))
            },
        }),
{
    match manifest {
        None => Ok(None),
        Some(text) => match decode_script_paths(text) {
            Ok(paths) => Ok(Some(paths)),
            Err(detail) => Err(PluginError::DecodingFailure(detail)),
        },
    }
}

/// Resolve each manifest entry against the output base, in manifest
/// order: a relative entry is joined onto the base, an absolute one is
/// already resolved and kept as it stands. Same length, same order.
pub fn resolve_manifest_entries(base: &str, entries: &Vec<String>) -> (r: Vec<String>)
    ensures
        r.deep_view().len() == entries.deep_view().len(),
        forall|i: int| 0 <= i < entries@.len() ==> r.deep_view()[i] == (if is_absolute_path(
            entries.deep_view()[i],
        ) {
            entries.deep_view()[i]
        } else {
            join_path(base@, entries.deep_view()[i])
        }),
{
    let mut out: Vec<String> = Vec::new();
    let n = entries.len();
    let mut i: usize = 0;
    while i < n
        invariant
            n == entries@.len(),
            i <= n,
            out.deep_view().len() == i,
            forall|j: int| 0 <= j < i ==> out.deep_view()[j] == (if is_absolute_path(
                entries.deep_view()[j],
            ) {
                entries.deep_view()[j]
            } else {
                join_path(base@, entries.deep_view()[j])
            }),
        decreases n - i,
    {
        let ghost out_before = out.deep_view();
        let entry = entries[i].as_str();
        let resolved: String = if is_absolute(entry) {
            entry.to_owned()
        } else {
            join_path_str(base, entry)
        };
        let ghost resolved_view = resolved@;
        out.push(resolved);
        proof {
            assert(out.deep_view() =~= out_before.push(resolved_view));
        }
        i += 1;
    }
    out
}

} // verus!

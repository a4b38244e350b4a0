//! The aggregator: a dependent collects every announced script path into
//! an ordered manifest.
//!
//! The dependent's build step classifies each entry of its inherited
//! environment snapshot. The one framework-owned variable replaces the
//! caller-supplied override; every externally namespaced directive is
//! collected in snapshot order. The override, when set, always comes
//! first; the result is encoded as a JSON array of strings, ready to be
//! written to the fixed manifest file in the dependent's output directory.

use vstd::prelude::*;
use crate::codec::encode_script_paths;
use crate::codec::json_of_paths;
use crate::codec::parsed_paths;
use crate::paths::has_prefix;
use crate::paths::has_suffix;
use crate::paths::str_eq;
use crate::paths::str_has_prefix;
use crate::paths::str_has_suffix;

verus! {

/// Whether `key` is the framework-owned override variable, set only by
/// the framework's own internal examples.
pub open spec fn is_framework_key(key: Seq<char>) -> bool {
    key == "DEP_TAURI_GLOBAL_API_SCRIPT_PATH"@
}

/// Whether `key` is an externally namespaced directive: the orchestrator's
/// dependency prefix, then any provider namespace, then the fixed key
/// suffix — and not the framework-owned variable itself.
pub open spec fn is_external_directive_key(key: Seq<char>) -> bool {
    has_prefix(key, "DEP_"@) && has_suffix(key, "GLOBAL_API_SCRIPT_PATH"@) && !is_framework_key(key)
}

/// The override in force once the whole snapshot is classified: the value
/// of the last framework-owned entry, or the caller's fallback when the
/// snapshot has none.
pub open spec fn final_override(env: Seq<(String, String)>, fallback: Option<Seq<char>>) -> Option<
    Seq<char>,
>
    decreases env.len(),
{
    if env.len() == 0 {
        fallback
    } else if is_framework_key(env.last().0@) {
        Some(env.last().1@)
    } else {
        final_override(env.drop_last(), fallback)
    }
}

/// The values of the externally namespaced directives, in snapshot order.
pub open spec fn external_scripts(env: Seq<(String, String)>) -> Seq<Seq<char>>
    decreases env.len(),
{
    if env.len() == 0 {
        Seq::<Seq<char>>::empty()
    } else if is_external_directive_key(env.last().0@) {
        external_scripts(env.drop_last()).push(env.last().1@)
    } else {
        external_scripts(env.drop_last())
    }
}

/// The manifest entries aggregated from a snapshot: the override first
/// when one is in force, then every external directive value in snapshot
/// order.
pub open spec fn aggregated_paths(env: Seq<(String, String)>, fallback: Option<Seq<char>>) -> Seq<
    Seq<char>,
> {
    match final_override(env, fallback) {
        Some(o) => seq![o] + external_scripts(env),
        None => external_scripts(env),
    }
}

/// The view of an optional override path.
pub open spec fn override_view(o: Option<String>) -> Option<Seq<char>> {
    match o {
        Some(s) => Some(s@),
        None => None,
    }
}

/// Whether `key` is an externally namespaced directive key.
pub fn is_external_directive_key_exec(key: &str) -> (r: bool)
    ensures
        r == is_external_directive_key(key@),
{
    str_has_prefix(key, "DEP_") && str_has_suffix(key, "GLOBAL_API_SCRIPT_PATH") && !str_eq(
        key,
        "DEP_TAURI_GLOBAL_API_SCRIPT_PATH",
    )
}

/// Classify the snapshot and collect the ordered list of manifest
/// entries: the override in force first (the last framework-owned entry,
/// or `tauri_global_scripts` when there is none), then every external
/// directive value in snapshot order.
pub fn collect_global_api_script_paths(
    env: &Vec<(String, String)>,
    tauri_global_scripts: Option<String>,
) -> (r: Vec<String>)
    ensures
        r.deep_view() == aggregated_paths(env@, override_view(tauri_global_scripts)),
{
    let ghost fallback = override_view(tauri_global_scripts);
    let mut overriding: Option<String> = tauri_global_scripts;
    let mut scripts: Vec<String> = Vec::new();
    let n = env.len();
    let mut i: usize = 0;
    proof {
        assert(env@.take(0int) =~= Seq::<(String, String)>::empty());
        assert(scripts.deep_view() =~= Seq::<Seq<char>>::empty());
    }
    while i < n
        invariant
            n == env@.len(),
            i <= n,
            override_view(overriding) == final_override(env@.take(i as int), fallback),
            scripts.deep_view() == external_scripts(env@.take(i as int)),
        decreases n - i,
    {
        proof {
            assert(env@.take(i as int + 1).drop_last() =~= env@.take(i as int));
            assert(env@.take(i as int + 1).last() == env@[i as int]);
        }
        let ghost scripts_before = scripts.deep_view();
        let key = env[i].0.as_str();
        if str_eq(key, "DEP_TAURI_GLOBAL_API_SCRIPT_PATH") {
            overriding = Some(env[i].1.clone());
        } else if is_external_directive_key_exec(key) {
            scripts.push(env[i].1.clone());
            proof {
                assert(scripts.deep_view() =~= scripts_before.push(env@[i as int].1@));
            }
        }
        i += 1;
    }
    proof {
        assert(env@.take(n as int) =~= env@);
    }
    let mut result: Vec<String> = Vec::new();
    match overriding {
        Some(o) => {
            result.push(o);
            proof {
                assert(result.deep_view() =~= seq![final_override(env@, fallback)->Some_0]);
            }
        },
        None => {},
    }
    let ghost head = result.deep_view();
    let mut tail = scripts;
    result.append(&mut tail);
    proof {
        assert(result.deep_view() =~= head + external_scripts(env@));
        if final_override(env@, fallback) is Some {
            assert(result.deep_view() =~= aggregated_paths(env@, fallback));
        } else {
            assert(head =~= Seq::<Seq<char>>::empty());
            assert(result.deep_view() =~= aggregated_paths(env@, fallback));
        }
    }
    result
}

/// Aggregate a snapshot into the manifest text: classify the snapshot,
/// collect the ordered entries, and encode them as a JSON array of
/// strings, which the reader's decoder parses back to exactly those
/// entries. The caller writes the result to the fixed manifest file in
/// its own output directory, replacing any previous manifest whole.
pub fn save_global_api_scripts_paths(
    env: &Vec<(String, String)>,
    tauri_global_scripts: Option<String>,
) -> (r: String)
    ensures
        r@ == json_of_paths(aggregated_paths(env@, override_view(tauri_global_scripts))),
        parsed_paths(r@) == Some(aggregated_paths(env@, override_view(tauri_global_scripts))),
{
    let paths = collect_global_api_script_paths(env, tauri_global_scripts);
    encode_script_paths(&paths)
}

} // verus!

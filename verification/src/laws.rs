//! The protocol's guarantees that span more than one operation, stated
//! and proved once over the same spec functions the operations' own
//! contracts use.

use vstd::prelude::*;
use crate::aggregate::aggregated_paths;
use crate::aggregate::external_scripts;
use crate::aggregate::final_override;
use crate::aggregate::is_external_directive_key;
use crate::codec::json_of_paths;
use crate::paths::join_path;
use crate::paths::lemma_strip_join_round_trip;
use crate::paths::lemma_trim_no_trailing_separator;
use crate::paths::strip_base;
use crate::paths::trim_trailing_separators;

verus! {

/// Round trip: a path published under a base (in the trimmed form the
/// publisher strips against) and carried to a dependent as that
/// dependent's only directive aggregates to a one-entry manifest holding
/// exactly the published relative form, and that entry, resolved against
/// the same base, reproduces the published canonical path. The one case
/// left out is a published path equal to the base directory itself,
/// whose relative form is empty.
pub proof fn lemma_publish_aggregate_round_trip(
    p: Seq<char>,
    base: Seq<char>,
    env: Seq<(String, String)>,
)
    requires
        p != trim_trailing_separators(base),
        strip_base(p, trim_trailing_separators(base)) is Some,
        env.len() == 1,
        is_external_directive_key(env[0].0@),
        env[0].1@ == strip_base(p, trim_trailing_separators(base))->Some_0,
    ensures
        aggregated_paths(env, None) == seq![
            strip_base(p, trim_trailing_separators(base))->Some_0,
        ],
        join_path(
            trim_trailing_separators(base),
            strip_base(p, trim_trailing_separators(base))->Some_0,
        ) == p,
{
    let tbase = trim_trailing_separators(base);
    let rel = strip_base(p, tbase)->Some_0;
    assert(env.last() == env[0]);
    assert(env.drop_last() =~= Seq::<(String, String)>::empty());
    assert(external_scripts(env.drop_last()) =~= Seq::<Seq<char>>::empty());
    assert(external_scripts(env) == external_scripts(env.drop_last()).push(env.last().1@));
    assert(external_scripts(env) =~= seq![rel]);
    assert(final_override(env, None) == final_override(env.drop_last(), None));
    assert(final_override(env, None) is None);
    assert(aggregated_paths(env, None) =~= seq![rel]);
    lemma_trim_no_trailing_separator(base);
    lemma_strip_join_round_trip(p, tbase, rel);
}

/// Override precedence: whenever an override is in force — the snapshot
/// holds a framework-owned entry, or the caller supplied one — it is the
/// first manifest entry, and the remaining entries are exactly the
/// external directive values, in snapshot order.
pub proof fn lemma_override_precedence(env: Seq<(String, String)>, fallback: Option<Seq<char>>)
    requires
        final_override(env, fallback) is Some,
    ensures
        aggregated_paths(env, fallback).len() == external_scripts(env).len() + 1,
        aggregated_paths(env, fallback)[0] == final_override(env, fallback)->Some_0,
        aggregated_paths(env, fallback).subrange(
            1,
            aggregated_paths(env, fallback).len() as int,
        ) == external_scripts(env),
{
    assert(aggregated_paths(env, fallback).subrange(
        1,
        aggregated_paths(env, fallback).len() as int,
    ) =~= external_scripts(env));
}

/// Idempotence: aggregating the same environment snapshot with the same
/// fallback override twice yields character-identical manifest texts, so
/// a rerun without changes rewrites the manifest file byte for byte.
pub proof fn lemma_aggregate_idempotent(
    env: Seq<(String, String)>,
    fallback: Option<Seq<char>>,
    first: Seq<char>,
    second: Seq<char>,
)
    requires
        first == json_of_paths(aggregated_paths(env, fallback)),
        second == json_of_paths(aggregated_paths(env, fallback)),
    ensures
        first == second,
{
}

} // verus!

//! The environment snapshot: the orchestrator's key/value side channel.
//!
//! Each build step receives an immutable snapshot of its inherited
//! environment as an ordered list of key/value pairs. The order is the
//! order the snapshot was taken in; nothing here assumes it is meaningful.

use vstd::prelude::*;

verus! {

/// The value of the first entry with key `key`, if any.
pub open spec fn lookup_spec(env: Seq<(String, String)>, key: Seq<char>) -> Option<Seq<char>>
    decreases env.len(),
{
    if env.len() == 0 {
        None
    } else if env[0].0@ == key {
        Some(env[0].1@)
    } else {
        lookup_spec(env.subrange(1, env.len() as int), key)
    }
}

/// Look a key up in the snapshot, returning the first matching value.
pub fn lookup(env: &Vec<(String, String)>, key: &str) -> (r: Option<String>)
    ensures
        r matches Some(v) ==> lookup_spec(env@, key@) == Some(v@),
        r is None ==> lookup_spec(env@, key@) is None,
{
    let n = env.len();
    proof {
        assert(env@.subrange(0, n as int) =~= env@);
    }
    let mut i: usize = 0;
    while i < n
        invariant
            n == env@.len(),
            i <= n,
            lookup_spec(env@, key@) == lookup_spec(env@.subrange(i as int, n as int), key@),
        decreases n - i,
    {
        proof {
            assert(env@.subrange(i as int, n as int)[0] == env@[i as int]);
            assert(env@.subrange(i as int, n as int).subrange(
                1,
                env@.subrange(i as int, n as int).len() as int,
            ) =~= env@.subrange(i as int + 1, n as int));
        }
        if crate::paths::str_eq(env[i].0.as_str(), key) {
            return Some(env[i].1.clone());
        }
        i += 1;
    }
    proof {
        assert(env@.subrange(n as int, n as int).len() == 0);
    }
    None
}

} // verus!

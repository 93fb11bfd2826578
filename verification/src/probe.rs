//! The mount-status decision: given the canonical form of a configured path
//! (if canonicalization succeeded) and the canonicalized destinations of the
//! live mount table (if the table could be read), decide whether the path is
//! currently mounted.
//!
//! Both failure cases fold into "not mounted": the monitor is biased toward
//! alerting rather than silent optimism.

use vstd::prelude::*;

verus! {

/// Whether a path with the given canonical form counts as mounted against the
/// given canonicalized mount-table destinations. `None` for the canonical form
/// means canonicalization failed; `None` for the table means it was unreadable.
/// Either failure yields "not mounted".
pub open spec fn probed_mounted(
    canonical_path: Option<Seq<char>>,
    mount_dests: Option<Seq<Seq<char>>>,
) -> bool {
    match (canonical_path, mount_dests) {
        (Some(p), Some(t)) => t.contains(p),
        _ => false,
    }
}

/// Decides whether a configured path is currently a mount point.
///
/// `canonical_path` is the path's canonical (symlink-resolved) form, or `None`
/// when resolution failed; `mount_dests` holds the canonicalized destinations
/// read from the live mount table, or `None` when the table was unreadable.
#[verifier::loop_isolation(false)]
pub fn is_mount_point(canonical_path: &Option<String>, mount_dests: &Option<Vec<String>>) -> (r:
    bool)
    ensures
        r == probed_mounted(canonical_path.deep_view(), mount_dests.deep_view()),
{
    match canonical_path {
        Some(p) => match mount_dests {
            Some(t) => {
                let mut i: usize = 0;
                while i < t.len()
                    invariant
                        0 <= i <= t@.len(),
                        forall|j: int| 0 <= j < i ==> t@[j]@ != p@,
                    decreases t@.len() - i,
                {
                    let cur: &String = &t[i];
                    if cur.eq(p) {
                        proof {
                            let s: Seq<Seq<char>> = t.deep_view();
                            let pv: Seq<char> = p.deep_view();
                            assert(0 <= i < s.len() && s[i as int] == pv);
                            assert(s.contains(pv));
                        }
                        return true;
                    }
                    i = i + 1;
                }
                false
            },
            None => false,
        },
        None => false,
    }
}

/// A path that fails canonicalization, or an unreadable mount table, is always
/// treated as unmounted, regardless of the table's contents.
pub proof fn lemma_probe_failure_unmounted(
    canonical_path: Option<Seq<char>>,
    mount_dests: Option<Seq<Seq<char>>>,
)
    ensures
        canonical_path is None ==> !probed_mounted(canonical_path, mount_dests),
        mount_dests is None ==> !probed_mounted(canonical_path, mount_dests),
{
}

} // verus!

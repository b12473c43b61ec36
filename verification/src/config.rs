//! Selection of a pixel/surface configuration.
//!
//! The window-system shell enumerates the configurations the platform
//! offers and hands their relevant attributes over as plain values; the
//! library picks one. The preference order: any configuration supporting
//! alpha-blended transparency beats any that does not, regardless of sample
//! count; among configurations with equal transparency support, a higher
//! multisample count wins; ties keep the earliest candidate.

use vstd::prelude::*;

verus! {

/// The attributes of one platform configuration that the selection reads.
#[derive(Clone, Copy, Debug, PartialEq, Eq, Structural)]
pub struct ConfigInfo {
    /// Whether the configuration supports alpha-blended transparency.
    pub supports_transparency: bool,
    /// The configuration's multisample count.
    pub num_samples: u8,
}

/// `a` is strictly preferred to `b`: transparency support first, then
/// sample count.
pub open spec fn prefers(a: ConfigInfo, b: ConfigInfo) -> bool {
    ||| (a.supports_transparency && !b.supports_transparency)
    ||| (a.supports_transparency == b.supports_transparency && a.num_samples > b.num_samples)
}

/// A configuration's place in the preference order, as one integer:
/// transparency support dominates any sample count.
pub open spec fn preference_rank(c: ConfigInfo) -> int {
    (if c.supports_transparency {
        256int
    } else {
        0int
    }) + c.num_samples
}

/// The preference order is exactly the order of the ranks, so it is a
/// strict total order.
pub proof fn lemma_prefers_is_rank_order(a: ConfigInfo, b: ConfigInfo)
    ensures
        prefers(a, b) <==> preference_rank(a) > preference_rank(b),
{
}

/// Index of the selected configuration: the first one that no later
/// candidate strictly beats. Meaningful for non-empty sequences.
pub open spec fn best_index(s: Seq<ConfigInfo>) -> int
    decreases s.len(),
{
    if s.len() <= 1 {
        0
    } else {
        let prev = best_index(s.drop_last());
        if prefers(s.last(), s[prev]) {
            s.len() - 1
        } else {
            prev
        }
    }
}

/// The selected configuration is one nothing strictly beats, and it is the
/// earliest such: every earlier candidate is strictly beaten by it.
pub proof fn lemma_selection_is_optimal(s: Seq<ConfigInfo>)
    requires
        s.len() > 0,
    ensures
        0 <= best_index(s) < s.len(),
        forall|j: int| 0 <= j < s.len() ==> !prefers(s[j], s[best_index(s)]),
        forall|j: int| 0 <= j < best_index(s) ==> prefers(s[best_index(s)], s[j]),
    decreases s.len(),
{
    if s.len() > 1 {
        let prev = s.drop_last();
        lemma_selection_is_optimal(prev);
        let pb = best_index(prev);
        let b = best_index(s);
        assert(forall|j: int| 0 <= j < s.len() - 1 ==> s[j] == prev[j]);
        assert forall|j: int| 0 <= j < s.len() implies !prefers(s[j], s[b]) by {
            lemma_prefers_is_rank_order(s[j], s[b]);
            if j < s.len() - 1 {
                lemma_prefers_is_rank_order(s[j], s[pb]);
                lemma_prefers_is_rank_order(s.last(), s[pb]);
            }
        }
        assert forall|j: int| 0 <= j < b implies prefers(s[b], s[j]) by {
            lemma_prefers_is_rank_order(s[b], s[j]);
            if b == s.len() - 1 {
                lemma_prefers_is_rank_order(s.last(), s[pb]);
                lemma_prefers_is_rank_order(s[pb], s[j]);
            }
        }
    }
}

/// The selection's tie-break, stated as the preference prose gives it: if
/// any candidate supports transparency the selected one does; among
/// candidates whose transparency support equals the selected one's, the
/// selected one has the highest sample count.
pub proof fn lemma_selection_tie_break(s: Seq<ConfigInfo>)
    requires
        s.len() > 0,
    ensures
        (exists|j: int| 0 <= j < s.len() && s[j].supports_transparency) ==> s[best_index(
            s,
        )].supports_transparency,
        forall|j: int|
            0 <= j < s.len() && (#[trigger] s[j]).supports_transparency == s[best_index(
                s,
            )].supports_transparency ==> s[j].num_samples <= s[best_index(s)].num_samples,
{
    lemma_selection_is_optimal(s);
    let b = best_index(s);
    if exists|j: int| 0 <= j < s.len() && s[j].supports_transparency {
        let j = choose|j: int| 0 <= j < s.len() && s[j].supports_transparency;
        assert(!prefers(s[j], s[b]));
    }
    assert forall|j: int|
        0 <= j < s.len() && (#[trigger] s[j]).supports_transparency
            == s[b].supports_transparency implies s[j].num_samples <= s[b].num_samples by {
        assert(!prefers(s[j], s[b]));
    }
}

/// Selects a configuration from the candidates, by index into the list the
/// caller passed; `None` exactly when there is no candidate at all.
pub fn select_config(configs: &Vec<ConfigInfo>) -> (r: Option<usize>)
    ensures
        r is Some <==> configs@.len() > 0,
        r matches Some(i) ==> i == best_index(configs@),
{
    if configs.len() == 0 {
        return None;
    }
    let mut best: usize = 0;
    let mut k: usize = 1;
    while k < configs.len()
        invariant
            1 <= k <= configs@.len(),
            best < k,
            best == best_index(configs@.take(k as int)),
        decreases configs@.len() - k,
    {
        let cand = configs[k];
        let cur = configs[best];
        proof {
            assert(configs@.take(k + 1 as int).drop_last() =~= configs@.take(k as int));
            assert(configs@.take(k + 1 as int).last() == configs@[k as int]);
        }
        if (cand.supports_transparency && !cur.supports_transparency) || (cand.supports_transparency
            == cur.supports_transparency && cand.num_samples > cur.num_samples) {
            best = k;
        }
        k = k + 1;
    }
    proof {
        assert(configs@.take(configs@.len() as int) =~= configs@);
    }
    Some(best)
}

} // verus!

use vstd::prelude::*;

use crate::systems::alive_step;

verus! {

/// The alive flag an entity ends with after a run of alive checks, one per
/// entry of `hs`: each check reads the health of its moment and applies
/// AliveCheck once.
pub open spec fn alive_after(a: Option<bool>, hs: Seq<Option<usize>>) -> Option<bool>
    decreases hs.len(),
{
    if hs.len() == 0 {
        a
    } else {
        alive_after(alive_step(a, hs[0]), hs.drop_first())
    }
}

/// Monotonic death: once an entity's alive flag is Some(false), no sequence
/// of further alive checks sets it back to true, whatever healths they see.
pub proof fn lemma_death_monotonic(a: Option<bool>, hs: Seq<Option<usize>>)
    requires
        a == Some(false),
    ensures
        alive_after(a, hs) == Some(false),
    decreases hs.len(),
{
    if hs.len() > 0 {
        assert(alive_step(a, hs[0]) == Some(false));
        lemma_death_monotonic(alive_step(a, hs[0]), hs.drop_first());
    }
}

/// Toggle idempotence over two ticks: the toggle systems flip each entity's
/// presence every tick, so where `s1` came from `s0` by one toggle and `s2`
/// from `s1` by another, every entity is present in `s2` exactly where it was
/// present in `s0`.
pub proof fn lemma_toggle_period_two<T>(s0: Seq<Option<T>>, s1: Seq<Option<T>>, s2: Seq<Option<T>>)
    requires
        s1.len() == s0.len(),
        s2.len() == s0.len(),
        forall|i: int| 0 <= i < s0.len() ==> (s1[i] is Some <==> s0[i] is None),
        forall|i: int| 0 <= i < s0.len() ==> (s2[i] is Some <==> s1[i] is None),
    ensures
        forall|i: int| 0 <= i < s0.len() ==> (s2[i] is Some <==> s0[i] is Some),
{
}

} // verus!

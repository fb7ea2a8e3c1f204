//! The mathematical model of write-buffer accounting: usage evolves by a
//! sequence of signed byte deltas (positive for a memtable grow, negative for
//! a shrink), with shrinks clamped at a zero floor so the counter is never
//! observably negative.

use vstd::prelude::*;

verus! {

/// Usage after one reported delta: the sum, clamped at the zero floor.
pub open spec fn clamped_step(used: int, delta: int) -> int {
    if used + delta >= 0 {
        used + delta
    } else {
        0
    }
}

/// Usage after a whole sequence of reported deltas, applied in order from
/// `used`, each step clamped at zero.
pub open spec fn usage_after(used: int, deltas: Seq<int>) -> int
    decreases deltas.len(),
{
    if deltas.len() == 0 {
        used
    } else {
        usage_after(clamped_step(used, deltas[0]), deltas.drop_first())
    }
}

/// The plain (unclamped) net of a sequence of deltas.
pub open spec fn delta_sum(deltas: Seq<int>) -> int
    decreases deltas.len(),
{
    if deltas.len() == 0 {
        0
    } else {
        deltas[0] + delta_sum(deltas.drop_first())
    }
}

/// Holds when no step of the sequence would drive the running net below
/// zero: the collaborator never reports freeing more than it had reported
/// allocating.
pub open spec fn never_underflows(used: int, deltas: Seq<int>) -> bool
    decreases deltas.len(),
{
    deltas.len() == 0 || (used + deltas[0] >= 0 && never_underflows(
        used + deltas[0],
        deltas.drop_first(),
    ))
}

/// Every entry of the sequence is non-negative (a pure grow history).
pub open spec fn all_non_negative(deltas: Seq<int>) -> bool {
    forall|i: int| 0 <= i < deltas.len() ==> deltas[i] >= 0
}

/// Tracked usage never goes negative, whatever is reported: every shrink is
/// clamped at the zero floor.
pub proof fn lemma_usage_never_negative(used: int, deltas: Seq<int>)
    requires
        used >= 0,
    ensures
        usage_after(used, deltas) >= 0,
    decreases deltas.len(),
{
    if deltas.len() > 0 {
        lemma_usage_never_negative(clamped_step(used, deltas[0]), deltas.drop_first());
    }
}

/// For every sequence of reported deltas in which no step underflows, usage
/// after the sequence is exactly the starting usage plus the net sum of the
/// deltas; the zero-floor clamp never fires.
pub proof fn lemma_usage_is_net_sum(used: int, deltas: Seq<int>)
    requires
        used >= 0,
        never_underflows(used, deltas),
    ensures
        usage_after(used, deltas) == used + delta_sum(deltas),
    decreases deltas.len(),
{
    if deltas.len() > 0 {
        lemma_usage_is_net_sum(used + deltas[0], deltas.drop_first());
    }
}

proof fn lemma_all_non_negative_drop_first(deltas: Seq<int>)
    requires
        deltas.len() > 0,
        all_non_negative(deltas),
    ensures
        all_non_negative(deltas.drop_first()),
{
    assert forall|i: int| 0 <= i < deltas.drop_first().len() implies deltas.drop_first()[i]
        >= 0 by {
        assert(deltas.drop_first()[i] == deltas[i + 1]);
    }
}

/// A pure grow history never underflows.
pub proof fn lemma_grows_never_underflow(used: int, deltas: Seq<int>)
    requires
        used >= 0,
        all_non_negative(deltas),
    ensures
        never_underflows(used, deltas),
    decreases deltas.len(),
{
    if deltas.len() > 0 {
        assert(deltas[0] >= 0);
        lemma_all_non_negative_drop_first(deltas);
        lemma_grows_never_underflow(used + deltas[0], deltas.drop_first());
    }
}

/// The net of a pure grow history is non-negative.
pub proof fn lemma_delta_sum_non_negative(deltas: Seq<int>)
    requires
        all_non_negative(deltas),
    ensures
        delta_sum(deltas) >= 0,
    decreases deltas.len(),
{
    if deltas.len() > 0 {
        assert(deltas[0] >= 0);
        lemma_all_non_negative_drop_first(deltas);
        lemma_delta_sum_non_negative(deltas.drop_first());
    }
}

/// Applying a concatenated history is applying the two parts in turn.
pub proof fn lemma_usage_after_append(used: int, first: Seq<int>, second: Seq<int>)
    ensures
        usage_after(used, first + second) == usage_after(usage_after(used, first), second),
    decreases first.len(),
{
    if first.len() == 0 {
        assert(first + second =~= second);
    } else {
        assert((first + second)[0] == first[0]);
        assert((first + second).drop_first() =~= first.drop_first() + second);
        lemma_usage_after_append(clamped_step(used, first[0]), first.drop_first(), second);
    }
}

/// The net of a concatenated history is the sum of the two nets.
pub proof fn lemma_delta_sum_append(first: Seq<int>, second: Seq<int>)
    ensures
        delta_sum(first + second) == delta_sum(first) + delta_sum(second),
    decreases first.len(),
{
    if first.len() == 0 {
        assert(first + second =~= second);
    } else {
        assert((first + second)[0] == first[0]);
        assert((first + second).drop_first() =~= first.drop_first() + second);
        lemma_delta_sum_append(first.drop_first(), second);
    }
}

/// Sharing one manager between two engine instances: after both report their
/// grows, usage is the sum of the two instances' nets — and since only the
/// running net enters `usage_after`, any interleaving of the two grow
/// histories reaches the same total. When one instance then closes,
/// shrinking everything it had grown in one step, exactly the other
/// instance's net remains.
pub proof fn lemma_shared_instances_close(first: Seq<int>, second: Seq<int>)
    requires
        all_non_negative(first),
        all_non_negative(second),
    ensures
        usage_after(0, first + second) == delta_sum(first) + delta_sum(second),
        clamped_step(usage_after(0, first + second), -delta_sum(first)) == delta_sum(second),
{
    lemma_delta_sum_non_negative(first);
    lemma_delta_sum_non_negative(second);
    lemma_usage_after_append(0, first, second);
    lemma_grows_never_underflow(0, first);
    lemma_usage_is_net_sum(0, first);
    lemma_grows_never_underflow(delta_sum(first), second);
    lemma_usage_is_net_sum(delta_sum(first), second);
}

} // verus!

//! Laws of the accept protocol.
//!
//! [`rotation`](crate::listener::rotation) describes one accept's effect
//! on the listener; the spec functions here iterate that step over a
//! whole run of accepts, and the lemmas state what the protocol
//! guarantees of such a run: the listener is re-armed by every accept
//! whatever the wait reports, each accept hands out exactly the instance
//! that was armed when it began, and distinct instances make for
//! independent streams.

use vstd::prelude::*;
use crate::handle::Handle;
use crate::listener::{rotation, PipeListener};

verus! {

/// The instance identifiers a run of accepts hands out, beginning with
/// `armed` as the armed instance and rotating in the instances `fresh`,
/// in order: one accept per element of `fresh`, each performing one
/// rotation step.
pub open spec fn handed_out(armed: usize, fresh: Seq<usize>) -> Seq<usize>
    decreases fresh.len(),
{
    if fresh.len() == 0 {
        Seq::<usize>::empty()
    } else {
        seq![armed] + handed_out(fresh[0], fresh.drop_first())
    }
}

/// The instance identifier left armed after such a run.
pub open spec fn armed_after(armed: usize, fresh: Seq<usize>) -> usize
    decreases fresh.len(),
{
    if fresh.len() == 0 {
        armed
    } else {
        armed_after(fresh[0], fresh.drop_first())
    }
}

/// Readiness is re-established by every accept, successful or not: the
/// rotation arms the freshly created instance before the wait on the
/// handed-out one even begins, and leaves the bound name and the
/// listener's well-formedness untouched. So after bind and after every
/// accept, a connecting client finds a live armed instance.
pub proof fn lemma_rotation_preserves_readiness(
    pre: PipeListener,
    post: PipeListener,
    fresh: Handle,
    prev: Handle,
)
    requires
        rotation(pre, post, fresh, prev),
        pre.wf(),
    ensures
        post.wf(),
        post.next_id() == fresh.id(),
        post.path_units() == pre.path_units(),
        prev.id() == pre.next_id(),
{
}

/// One accept is one step of a run: a rotation from `pre` to `post`
/// performs the run of length one, handing out exactly the instance that
/// was armed and leaving the fresh one armed.
pub proof fn lemma_rotation_is_one_step(
    pre: PipeListener,
    post: PipeListener,
    fresh: Handle,
    prev: Handle,
)
    requires
        rotation(pre, post, fresh, prev),
    ensures
        handed_out(pre.next_id(), seq![fresh.id()]) == seq![prev.id()],
        armed_after(pre.next_id(), seq![fresh.id()]) == post.next_id(),
{
    let run = seq![fresh.id()];
    assert(run.drop_first() =~= Seq::<usize>::empty());
    assert(handed_out(run[0], run.drop_first()) =~= Seq::<usize>::empty());
    assert(handed_out(pre.next_id(), run) =~= seq![prev.id()]);
    assert(armed_after(run[0], run.drop_first()) == fresh.id());
}

/// A run of n accepts hands out n instances: the one armed at the start,
/// then all the rotated-in instances but the last, which stays armed for
/// the client after the run.
pub proof fn lemma_sequential_accepts(armed: usize, fresh: Seq<usize>)
    ensures
        handed_out(armed, fresh).len() == fresh.len(),
        fresh.len() > 0 ==> handed_out(armed, fresh) == seq![armed] + fresh.drop_last(),
        fresh.len() > 0 ==> armed_after(armed, fresh) == fresh.last(),
    decreases fresh.len(),
{
    if fresh.len() > 0 {
        lemma_sequential_accepts(fresh[0], fresh.drop_first());
        if fresh.len() == 1 {
            assert(handed_out(armed, fresh) =~= seq![armed] + fresh.drop_last());
            assert(fresh.drop_first().len() == 0);
            assert(armed_after(armed, fresh) == armed_after(fresh[0], fresh.drop_first()));
            assert(armed_after(fresh[0], fresh.drop_first()) == fresh[0]);
            assert(fresh.last() == fresh[0]);
        } else {
            assert(fresh.drop_first().drop_last() =~= fresh.drop_last().drop_first());
            assert(handed_out(armed, fresh) =~= seq![armed] + fresh.drop_last());
            assert(fresh.drop_first().last() == fresh.last());
        }
    }
}

/// Each accept hands out exactly the instance that was armed at the
/// moment it began.
pub proof fn lemma_accept_hands_out_armed(armed: usize, fresh: Seq<usize>, k: int)
    requires
        0 <= k < fresh.len(),
    ensures
        handed_out(armed, fresh)[k] == armed_after(armed, fresh.take(k)),
    decreases k,
{
    lemma_sequential_accepts(armed, fresh);
    if k == 0 {
        assert(fresh.take(0) =~= Seq::<usize>::empty());
    } else {
        lemma_accept_hands_out_armed(fresh[0], fresh.drop_first(), k - 1);
        lemma_sequential_accepts(fresh[0], fresh.drop_first());
        assert(fresh.drop_first().take(k - 1) =~= fresh.take(k).drop_first());
        assert(handed_out(armed, fresh)[k] == handed_out(fresh[0], fresh.drop_first())[k - 1]);
        assert(armed_after(armed, fresh.take(k)) == armed_after(
            fresh.take(k)[0],
            fresh.take(k).drop_first(),
        ));
    }
}

/// Independent streams: when the instances of a run are pairwise
/// distinct — the initially armed one and every rotated-in one — then so
/// are the instances handed out, so no two accepts yield the same
/// channel.
pub proof fn lemma_accepts_independent(armed: usize, fresh: Seq<usize>)
    requires
        !fresh.contains(armed),
        forall|i: int, j: int| 0 <= i < j < fresh.len() ==> fresh[i] != fresh[j],
    ensures
        forall|i: int, j: int|
            0 <= i < j < handed_out(armed, fresh).len() ==> handed_out(armed, fresh)[i]
                != handed_out(armed, fresh)[j],
{
    lemma_sequential_accepts(armed, fresh);
    if fresh.len() > 0 {
        let h = handed_out(armed, fresh);
        assert forall|i: int, j: int| 0 <= i < j < h.len() implies h[i] != h[j] by {
            assert(h[0] == armed);
            if i == 0 {
                assert(h[j] == fresh.drop_last()[j - 1]);
                assert(fresh[j - 1] != armed) by {
                    assert(fresh.contains(armed) <==> exists|m: int|
                        0 <= m < fresh.len() && fresh[m] == armed);
                }
            } else {
                assert(h[i] == fresh[i - 1]);
                assert(h[j] == fresh[j - 1]);
            }
        }
    }
}

} // verus!

//! The legacy path's per-frame loop. Each polling interval the windowing
//! system reports the window's close flag; while it is clear the loop renders
//! one frame (clear, swap, poll), and at the first set flag it stops and
//! releases the allocated objects. The loop is modeled as a function from the
//! sequence of close-flag readings to the sequence of actions issued, and the
//! laws below pin that trace down: one frame per interval before the close,
//! one release at the close, and nothing at all afterwards.

use vstd::prelude::*;

verus! {

/// One action the render loop issues during a polling interval.
#[derive(Clone, Copy, Debug, PartialEq, Eq, Structural)]
pub enum FrameAction {
    /// Clear the color and depth buffers, swap buffers, and poll events.
    RenderFrame,
    /// Leave the loop and release the allocated GPU objects.
    ReleaseObjects,
}

/// The actions the loop issues when the successive close-flag readings are
/// `flags`: a frame for each clear flag, and at the first set flag the single
/// release, after which nothing more happens. When no reading is set, the
/// window is still open after the last one: every reading produced a frame
/// and no release has happened yet.
pub open spec fn loop_trace(flags: Seq<bool>) -> Seq<FrameAction>
    decreases flags.len(),
{
    if flags.len() == 0 {
        Seq::empty()
    } else if flags[0] {
        seq![FrameAction::ReleaseObjects]
    } else {
        seq![FrameAction::RenderFrame] + loop_trace(flags.drop_first())
    }
}

/// The index of the first set reading in `flags`, or `flags.len()` when none
/// is set.
pub open spec fn first_close(flags: Seq<bool>) -> int
    decreases flags.len(),
{
    if flags.len() == 0 {
        0
    } else if flags[0] {
        0
    } else {
        1 + first_close(flags.drop_first())
    }
}

/// How many release actions a trace holds.
pub open spec fn count_releases(actions: Seq<FrameAction>) -> nat
    decreases actions.len(),
{
    if actions.len() == 0 {
        0
    } else {
        (if actions[0] is ReleaseObjects {
            1nat
        } else {
            0nat
        }) + count_releases(actions.drop_first())
    }
}

/// Run the render loop against the recorded close-flag readings `flags` and
/// return the actions issued, in order.
pub fn run_render_loop(flags: &Vec<bool>) -> (actions: Vec<FrameAction>)
    ensures
        actions@ == loop_trace(flags@),
{
    let mut actions: Vec<FrameAction> = Vec::new();
    let mut i: usize = 0;
    proof {
        assert(flags@.skip(0) =~= flags@);
        assert(actions@ + loop_trace(flags@) =~= loop_trace(flags@));
    }
    while i < flags.len()
        invariant
            i <= flags@.len(),
            loop_trace(flags@) == actions@ + loop_trace(flags@.skip(i as int)),
        decreases flags@.len() - i,
    {
        if flags[i] {
            actions.push(FrameAction::ReleaseObjects);
            proof {
                assert(flags@.skip(i as int)[0] == flags@[i as int]);
                assert(loop_trace(flags@.skip(i as int)) =~= seq![FrameAction::ReleaseObjects]);
                assert(actions@ =~= loop_trace(flags@));
            }
            return actions;
        }
        actions.push(FrameAction::RenderFrame);
        proof {
            assert(flags@.skip(i as int)[0] == flags@[i as int]);
            assert(flags@.skip(i as int).drop_first() =~= flags@.skip(i as int + 1));
            assert(loop_trace(flags@.skip(i as int)) == seq![FrameAction::RenderFrame]
                + loop_trace(flags@.skip(i as int + 1)));
            assert(actions@ + loop_trace(flags@.skip(i as int + 1)) =~= loop_trace(flags@));
        }
        i = i + 1;
    }
    proof {
        assert(flags@.skip(i as int).len() == 0);
        assert(actions@ + loop_trace(flags@.skip(i as int)) =~= actions@);
    }
    actions
}

/// A clear first reading does not change whether the close flag is ever set:
/// the remaining readings decide.
proof fn lemma_tail_keeps_close(flags: Seq<bool>)
    requires
        flags.len() > 0,
        !flags[0],
    ensures
        flags.contains(true) <==> flags.drop_first().contains(true),
{
    let rest = flags.drop_first();
    if flags.contains(true) {
        let w = choose|w: int| 0 <= w < flags.len() && flags[w];
        assert(w != 0);
        assert(rest[w - 1]);
        assert(rest.contains(true));
    }
    if rest.contains(true) {
        let w = choose|w: int| 0 <= w < rest.len() && rest[w];
        assert(flags[w + 1]);
        assert(flags.contains(true));
    }
}

/// The loop terminates within one polling interval of the close flag becoming
/// set, and issues no further clear, swap or poll afterwards: with `k` the
/// index of the first set reading, the trace holds exactly `k` frames followed
/// by the single release, and nothing after it. When no reading is set, every
/// interval renders one frame and the objects are not released.
pub proof fn lemma_render_loop_stops_at_close(flags: Seq<bool>)
    ensures
        flags.contains(true) ==> {
            let k = first_close(flags);
            &&& 0 <= k < flags.len()
            &&& flags[k]
            &&& forall|j: int| 0 <= j < k ==> !flags[j]
            &&& loop_trace(flags).len() == k + 1
            &&& forall|j: int| 0 <= j < k ==> loop_trace(flags)[j] is RenderFrame
            &&& loop_trace(flags)[k] is ReleaseObjects
        },
        !flags.contains(true) ==> {
            &&& first_close(flags) == flags.len()
            &&& loop_trace(flags).len() == flags.len()
            &&& forall|j: int| 0 <= j < flags.len() ==> loop_trace(flags)[j] is RenderFrame
        },
    decreases flags.len(),
{
    if flags.len() == 0 {
        assert(!flags.contains(true));
    } else if flags[0] {
        assert(flags.contains(true));
    } else {
        let rest = flags.drop_first();
        lemma_render_loop_stops_at_close(rest);
        lemma_tail_keeps_close(flags);
        let t = loop_trace(flags);
        assert(t == seq![FrameAction::RenderFrame] + loop_trace(rest));
        assert(forall|j: int| 0 <= j < rest.len() ==> rest[j] == flags[j + 1]);
        assert(forall|j: int|
            0 <= j < loop_trace(rest).len() ==> t[j + 1] == loop_trace(rest)[j]);
        if flags.contains(true) {
            let k = first_close(flags);
            assert(k == 1 + first_close(rest));
            assert(flags[k] == rest[k - 1]);
            assert forall|j: int| 1 <= j < k implies !flags[j] by {
                assert(!rest[j - 1]);
            }
            assert forall|j: int| 1 <= j < k implies t[j] is RenderFrame by {
                assert(loop_trace(rest)[j - 1] is RenderFrame);
            }
            assert(t[0] is RenderFrame);
            assert(t[k] is ReleaseObjects);
        }
    }
}

/// The objects are released exactly once when the close flag is ever set, and
/// never released while it stays clear.
pub proof fn lemma_objects_released_exactly_once(flags: Seq<bool>)
    ensures
        count_releases(loop_trace(flags)) == if flags.contains(true) {
            1nat
        } else {
            0nat
        },
    decreases flags.len(),
{
    if flags.len() == 0 {
        assert(!flags.contains(true));
    } else if flags[0] {
        assert(flags.contains(true));
        let t = loop_trace(flags);
        assert(t == seq![FrameAction::ReleaseObjects]);
        assert(t.drop_first() =~= Seq::<FrameAction>::empty());
        assert(count_releases(Seq::<FrameAction>::empty()) == 0);
        assert(count_releases(t) == 1);
    } else {
        let rest = flags.drop_first();
        lemma_objects_released_exactly_once(rest);
        lemma_tail_keeps_close(flags);
        let t = loop_trace(flags);
        assert(t == seq![FrameAction::RenderFrame] + loop_trace(rest));
        assert(t[0] is RenderFrame);
        assert(t.drop_first() =~= loop_trace(rest));
        assert(count_releases(t) == count_releases(loop_trace(rest)));
    }
}

} // verus!

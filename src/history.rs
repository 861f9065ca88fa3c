use vstd::prelude::*;

use crate::frame_loop::{Action, FrameLoop, LoopEvent, Phase};
use crate::surface::SurfaceSize;

verus! {

/// The state after handling `evs` in order, starting from `s`.
pub open spec fn run<F: Copy>(s: FrameLoop<F>, evs: Seq<LoopEvent>) -> FrameLoop<F>
    decreases evs.len(),
{
    if evs.len() == 0 {
        s
    } else {
        run(s, evs.drop_last()).step(evs.last()).0
    }
}

/// The actions answered to `evs`, one per event, starting from `s`.
pub open spec fn actions<F: Copy>(s: FrameLoop<F>, evs: Seq<LoopEvent>) -> Seq<Action<F>>
    decreases evs.len(),
{
    if evs.len() == 0 {
        Seq::empty()
    } else {
        actions(s, evs.drop_last()).push(run(s, evs.drop_last()).step(evs.last()).1)
    }
}

/// The size of the last resize in `evs` with no zero side, or `init` where
/// there is none.
pub open spec fn latest_drawable_size(init: Option<SurfaceSize>, evs: Seq<LoopEvent>) -> Option<SurfaceSize>
    decreases evs.len(),
{
    if evs.len() == 0 {
        init
    } else {
        match evs.last() {
            LoopEvent::Resized { width, height } if width > 0 && height > 0 => Some(
                SurfaceSize { width, height },
            ),
            _ => latest_drawable_size(init, evs.drop_last()),
        }
    }
}

pub open spec fn frames_acquired<F>(acts: Seq<Action<F>>) -> nat
    decreases acts.len(),
{
    if acts.len() == 0 {
        0
    } else {
        frames_acquired(acts.drop_last()) + if acts.last() is AcquireFrame {
            1nat
        } else {
            0nat
        }
    }
}

/// Frames given back to the surface: presented after a draw, or dropped
/// (acquisition failed, or the loop stopped while one was held).
pub open spec fn frames_released<F>(acts: Seq<Action<F>>) -> nat
    decreases acts.len(),
{
    if acts.len() == 0 {
        0
    } else {
        frames_released(acts.drop_last()) + match acts.last() {
            Action::Draw(_) => 1nat,
            Action::SkipFrame => 1nat,
            Action::Exit { discard_frame } => if discard_frame {
                1nat
            } else {
                0nat
            },
            _ => 0nat,
        }
    }
}

pub open spec fn redraws_requested(evs: Seq<LoopEvent>) -> nat
    decreases evs.len(),
{
    if evs.len() == 0 {
        0
    } else {
        redraws_requested(evs.drop_last()) + if evs.last() == LoopEvent::RedrawRequested {
            1nat
        } else {
            0nat
        }
    }
}

/// The number of frames held: one while an acquisition is outstanding.
pub open spec fn frames_held<F>(s: FrameLoop<F>) -> nat {
    if s.phase == Phase::AwaitingFrame {
        1
    } else {
        0
    }
}

/// Handling any sequence of events keeps the loop well formed.
pub proof fn lemma_run_wf<F: Copy>(s: FrameLoop<F>, evs: Seq<LoopEvent>)
    requires
        s.wf(),
    ensures
        run(s, evs).wf(),
    decreases evs.len(),
{
    if evs.len() > 0 {
        lemma_run_wf(s, evs.drop_last());
    }
}

/// Until a close, the surface's live size is the last size with no zero
/// side that a resize brought; a resize with a zero side changes nothing of
/// it.
pub proof fn lemma_live_size_is_latest_drawable<F: Copy>(s: FrameLoop<F>, evs: Seq<LoopEvent>)
    requires
        s.phase != Phase::Terminated,
        forall|i: int| 0 <= i < evs.len() ==> evs[i] != LoopEvent::CloseRequested,
    ensures
        run(s, evs).applied == latest_drawable_size(s.applied, evs),
        run(s, evs).phase != Phase::Terminated,
    decreases evs.len(),
{
    if evs.len() > 0 {
        let pre = evs.drop_last();
        assert forall|i: int| 0 <= i < pre.len() implies pre[i] != LoopEvent::CloseRequested by {
            assert(pre[i] == evs[i]);
        }
        lemma_live_size_is_latest_drawable(s, pre);
        assert(evs.last() == evs[evs.len() - 1]);
    }
}

/// The pipeline is built once: no event changes it, and every pass drawn,
/// on the first frame as on any later one, binds that same pipeline and
/// clears to the same color.
pub proof fn lemma_pipeline_never_rebuilt<F: Copy>(s: FrameLoop<F>, evs: Seq<LoopEvent>)
    ensures
        run(s, evs).pipeline == s.pipeline,
        run(s, evs).clear == s.clear,
        actions(s, evs).len() == evs.len(),
        forall|i: int|
            0 <= i < actions(s, evs).len() ==> (#[trigger] actions(s, evs)[i] matches Action::Draw(
                p,
            ) ==> p == s.pass()),
    decreases evs.len(),
{
    if evs.len() > 0 {
        let pre = evs.drop_last();
        lemma_pipeline_never_rebuilt(s, pre);
        let acts = actions(s, evs);
        assert forall|i: int|
            0 <= i < acts.len() implies (#[trigger] acts[i] matches Action::Draw(p) ==> p
                == s.pass()) by {
            if i < acts.len() - 1 {
                assert(acts[i] == actions(s, pre)[i]);
            }
        }
    }
}

/// Frames are accounted for: each one acquired is presented or dropped,
/// except the one still held; at most one is held at a time; and no more
/// are acquired than redraws were requested.
pub proof fn lemma_one_frame_per_redraw<F: Copy>(s: FrameLoop<F>, evs: Seq<LoopEvent>)
    ensures
        frames_acquired(actions(s, evs)) + frames_held(s) == frames_released(actions(s, evs))
            + frames_held(run(s, evs)),
        frames_acquired(actions(s, evs)) <= redraws_requested(evs),
    decreases evs.len(),
{
    if evs.len() > 0 {
        let pre = evs.drop_last();
        lemma_one_frame_per_redraw(s, pre);
        let acts = actions(s, evs);
        assert(acts.drop_last() =~= actions(s, pre));
    }
}

/// A close request stops the loop, whatever came before it, and nothing
/// after it starts the loop again.
pub proof fn lemma_close_terminates<F: Copy>(s: FrameLoop<F>, evs: Seq<LoopEvent>, i: int)
    requires
        0 <= i < evs.len(),
        evs[i] == LoopEvent::CloseRequested,
    ensures
        run(s, evs).phase == Phase::Terminated,
    decreases evs.len(),
{
    let pre = evs.drop_last();
    if i < evs.len() - 1 {
        assert(pre[i] == evs[i]);
        lemma_close_terminates(s, pre, i);
    } else {
        assert(evs.last() == evs[i]);
    }
}

} // verus!

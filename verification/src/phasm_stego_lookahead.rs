//! Refinement of the frames in a lookahead window.
use crate::encoder::{FrameEncoder, FrameInvariants, FrameState, FrameType};
use std::sync::Arc;
use vstd::prelude::*;

verus! {

/// One frame of a lookahead window. The window is in chronological order: its
/// first frame is encoded next, and the others are those to come.
pub struct LookaheadWindowFrame<E: FrameEncoder> {
    /// Invariants of the frame. Those of an inter frame have their references
    /// in place.
    pub fi: FrameInvariants<E>,
    /// State of the frame.
    pub fs: FrameState<E>,
    /// The source picture.
    pub yuv: Arc<E::Frame>,
    /// Display-order index of the frame.
    pub output_frameno: u64,
}

/// The state `fs` of a frame becomes `refined`: a key frame keeps its state, and
/// another frame gets the motion estimates that the codec computes for it.
pub open spec fn state_refined<E: FrameEncoder>(
    codec: &E,
    inter_cfg: E::InterConfig,
    fi: FrameInvariants<E>,
    fs: FrameState<E>,
    refined: FrameState<E>,
) -> bool {
    if fi.frame_type == FrameType::KEY {
        refined == fs
    } else {
        &&& call_ensures(
            E::compute_motion_vectors,
            (codec, &fi, &fs, &inter_cfg),
            refined.frame_me_stats,
        )
        &&& refined == (FrameState::<E> { frame_me_stats: refined.frame_me_stats, ..fs })
    }
}

/// The frame `before` of a window becomes `after`: its state is refined, and
/// nothing else changes.
pub open spec fn window_frame_refined<E: FrameEncoder>(
    codec: &E,
    inter_cfg: E::InterConfig,
    before: LookaheadWindowFrame<E>,
    after: LookaheadWindowFrame<E>,
) -> bool {
    &&& after == (LookaheadWindowFrame::<E> { fs: after.fs, ..before })
    &&& state_refined(codec, inter_cfg, before.fi, before.fs, after.fs)
}

/// The window `before` becomes `after`: each frame in it is refined on its own.
pub open spec fn window_refined<E: FrameEncoder>(
    codec: &E,
    inter_cfg: E::InterConfig,
    before: Seq<LookaheadWindowFrame<E>>,
    after: Seq<LookaheadWindowFrame<E>>,
) -> bool {
    &&& after.len() == before.len()
    &&& forall|k: int|
        0 <= k < before.len() ==> window_frame_refined(
            codec,
            inter_cfg,
            before[k],
            #[trigger] after[k],
        )
}

/// Refines every frame of `window` on its own: key frames stay as they are, and
/// each other frame gets its motion estimates. The pass ends there: the codec's
/// own data, distortion scales among it, stays what it was.
///
/// Motion estimation reads the references of a frame, so that those of an inter
/// frame have to be in place before.
pub fn compute_distortion_scales_for_window<E: FrameEncoder>(
    codec: &E,
    window: &mut [LookaheadWindowFrame<E>],
    inter_cfg: &E::InterConfig,
    _bit_depth: usize,
)
    ensures
        window_refined(codec, *inter_cfg, old(window)@, final(window)@),
        final(window)@.len() == old(window)@.len(),
        forall|k: int|
            0 <= k < old(window)@.len() && old(window)@[k].fi.frame_type != FrameType::KEY
                ==> call_ensures(
                E::compute_motion_vectors,
                (codec, &old(window)@[k].fi, &old(window)@[k].fs, inter_cfg),
                (#[trigger] final(window)@[k]).fs.frame_me_stats,
            ),
{
    let len: usize = window.len();
    let mut i: usize = 0;
    while i < len
        invariant
            i <= len,
            len == window@.len(),
            len == old(window)@.len(),
            forall|k: int|
                0 <= k < i ==> window_frame_refined(
                    codec,
                    *inter_cfg,
                    old(window)@[k],
                    #[trigger] window@[k],
                ),
            forall|k: int| i <= k < len ==> #[trigger] window@[k] == old(window)@[k],
        decreases len - i,
    {
        if window[i].fi.frame_type != FrameType::KEY {
            let stats = codec.compute_motion_vectors(&window[i].fi, &window[i].fs, inter_cfg);
            window[i].fs.frame_me_stats = stats;
        }
        i += 1;
    }
    assert forall|k: int|
        0 <= k < old(window)@.len() && old(window)@[k].fi.frame_type
            != FrameType::KEY implies call_ensures(
        E::compute_motion_vectors,
        (codec, &old(window)@[k].fi, &old(window)@[k].fs, inter_cfg),
        (#[trigger] window@[k]).fs.frame_me_stats,
    ) by {
        assert(window_frame_refined(codec, *inter_cfg, old(window)@[k], window@[k]));
    }
}

} // verus!

//! The calls that the driver makes of a codec, in full.
//!
//! Each law names an operation of the codec, the arguments that it got, and where
//! its reply went, field by field.
use crate::encoder::{
    EncoderConfig, FrameEncoder, FrameInvariants, FrameState, FrameType, Sequence,
};
use crate::phasm_stego::{
    frame_follows, gop_encoded, gop_input, gop_refused, inter_frame_built, is_run,
    one_frame_refined, outputs, reference_updated, CodedFrame, GopInput,
};
use crate::phasm_stego_lookahead::{window_frame_refined, window_refined, LookaheadWindowFrame};
use std::sync::Arc;
use vstd::prelude::*;

verus! {

/// A GOP is made from what the caller gave, all of it and nothing else.
pub proof fn law_gop_is_what_was_given<E: FrameEncoder>(
    yuvs: Seq<Arc<E::Frame>>,
    config: Arc<EncoderConfig<E::Settings>>,
    sequence: Arc<Sequence<E::SequenceHeader>>,
    lookahead: bool,
)
    ensures
        gop_input::<E>(yuvs, config, sequence, lookahead).yuvs == yuvs,
        gop_input::<E>(yuvs, config, sequence, lookahead).config == config,
        gop_input::<E>(yuvs, config, sequence, lookahead).sequence == sequence,
        gop_input::<E>(yuvs, config, sequence, lookahead).lookahead == lookahead,
{
}

/// Low latency is the only setting that is ever changed: the caller's width,
/// height, bit depth and further settings stay.
pub proof fn law_settings_are_kept<S>(config: EncoderConfig<S>)
    ensures
        config.low_latency_variant().width == config.width,
        config.low_latency_variant().height == config.height,
        config.low_latency_variant().bit_depth == config.bit_depth,
        config.low_latency_variant().settings == config.settings,
        config.low_latency_variant().low_latency,
{
}

/// Behind the results of a GOP is a run that goes through all its pictures and
/// no others. Result `k` is the packet and the recording of frame `k`.
pub proof fn law_each_picture_has_its_result<E: FrameEncoder>(
    codec: &E,
    input: GopInput<E>,
    results: Seq<(Vec<u8>, E::Recording)>,
) -> (run: (E::InterConfig, Seq<CodedFrame<E>>))
    requires
        gop_encoded(codec, input, results),
    ensures
        is_run(codec, input, run.0, run.1),
        run.1.len() == input.yuvs.len(),
        results.len() == input.yuvs.len(),
        forall|k: int|
            0 <= k < results.len() ==> (#[trigger] results[k]).0 == run.1[k].packet && results[k].1
                == run.1[k].recording,
{
    choose|inter_cfg: E::InterConfig, trace: Seq<CodedFrame<E>>|
        {
            &&& #[trigger] is_run(codec, input, inter_cfg, trace)
            &&& trace.len() == input.yuvs.len()
            &&& results == outputs(trace)
        }
}

/// Behind a refusal is a run over the pictures before the refused one, of which
/// there is one at least, and the codec's reply that it has no inter frame to
/// follow the last of them.
pub proof fn law_refusal_is_the_codecs<E: FrameEncoder>(
    codec: &E,
    input: GopInput<E>,
    k: int,
) -> (run: (E::InterConfig, Seq<CodedFrame<E>>, Vec<E::T35>))
    requires
        gop_refused(codec, input, k),
    ensures
        is_run(codec, input, run.0, run.1),
        run.1.len() == k,
        1 <= k < input.yuvs.len(),
        run.2@.len() == 0,
        call_ensures(
            E::new_inter_frame,
            (
                codec,
                &run.1[k - 1].closed,
                &run.0,
                0u64,
                k as u64,
                input.yuvs.len() as u64,
                false,
                run.2,
            ),
            None,
        ),
{
    let (inter_cfg, trace) = choose|inter_cfg: E::InterConfig, trace: Seq<CodedFrame<E>>|
        {
            &&& #[trigger] is_run(codec, input, inter_cfg, trace)
            &&& 0 < k == trace.len() < input.yuvs.len()
            &&& inter_frame_built(
                codec,
                input,
                inter_cfg,
                trace[k - 1].closed,
                k,
                None,
            )
        };
    let none: Option<FrameInvariants<E>> = None;
    let t35 = choose|t35: Vec<E::T35>|
        {
            &&& t35@.len() == 0
            &&& #[trigger] call_ensures(
                E::new_inter_frame,
                (
                    codec,
                    &trace[k - 1].closed,
                    &inter_cfg,
                    0u64,
                    k as u64,
                    input.yuvs.len() as u64,
                    false,
                    t35,
                ),
                none,
            )
        };
    (inter_cfg, trace, t35)
}

/// The settings that the codec is given for the GOP.
spec fn settings_asked<E: FrameEncoder>(input: GopInput<E>) -> EncoderConfig<E::Settings> {
    input.config.low_latency_variant()
}

/// The inter configuration is the codec's reply to the caller's settings with
/// low latency switched on.
pub proof fn law_inter_config_follows_the_settings<E: FrameEncoder>(
    codec: &E,
    input: GopInput<E>,
    inter_cfg: E::InterConfig,
    trace: Seq<CodedFrame<E>>,
) -> (asked: EncoderConfig<E::Settings>)
    requires
        is_run(codec, input, inter_cfg, trace),
    ensures
        call_ensures(E::new_inter_config, (codec, &asked), inter_cfg),
        asked.width == input.config.width,
        asked.height == input.config.height,
        asked.bit_depth == input.config.bit_depth,
        asked.settings == input.config.settings,
        asked.low_latency,
{
    settings_asked(input)
}

/// Frame 0 is what the codec made as a key frame, at the start of a GOP, from
/// the caller's settings with low latency switched on, the caller's sequence and
/// no metadata.
pub proof fn law_first_frame_is_the_codecs_key_frame<E: FrameEncoder>(
    codec: &E,
    input: GopInput<E>,
    inter_cfg: E::InterConfig,
    trace: Seq<CodedFrame<E>>,
) -> (asked: (Arc<EncoderConfig<E::Settings>>, Vec<E::T35>))
    requires
        is_run(codec, input, inter_cfg, trace),
        trace.len() > 0,
    ensures
        call_ensures(
            E::new_key_frame,
            (codec, asked.0, input.sequence, 0u64, asked.1),
            trace[0].built,
        ),
        asked.0.width == input.config.width,
        asked.0.height == input.config.height,
        asked.0.bit_depth == input.config.bit_depth,
        asked.0.settings == input.config.settings,
        asked.0.low_latency,
        asked.1@.len() == 0,
{
    assert(frame_follows(codec, input, inter_cfg, trace, 0));
    let config = Arc::new(settings_asked(input));
    let t35 = choose|t35: Vec<E::T35>|
        {
            &&& t35@.len() == 0
            &&& #[trigger] call_ensures(
                E::new_key_frame,
                (codec, config, input.sequence, 0u64, t35),
                trace[0].built,
            )
        };
    (config, t35)
}

/// The key frame is encoded with what the codec made, field by field, but for
/// segmentation, which is off.
pub proof fn law_key_frame_is_encoded_as_built<E: FrameEncoder>(
    codec: &E,
    input: GopInput<E>,
    inter_cfg: E::InterConfig,
    trace: Seq<CodedFrame<E>>,
)
    requires
        is_run(codec, input, inter_cfg, trace),
        trace.len() > 0,
    ensures
        trace[0].fi.frame_type == trace[0].built.frame_type,
        trace[0].fi.config == trace[0].built.config,
        trace[0].fi.sequence == trace[0].built.sequence,
        trace[0].fi.width == trace[0].built.width,
        trace[0].fi.height == trace[0].built.height,
        trace[0].fi.coded_frame_data == trace[0].built.coded_frame_data,
        trace[0].fi.rec_buffer == trace[0].built.rec_buffer,
        trace[0].fi.ref_frame_sign_bias == trace[0].built.ref_frame_sign_bias,
        trace[0].fi.enable_segmentation == false,
{
    assert(frame_follows(codec, input, inter_cfg, trace, 0));
}

/// Frame `k`, after the first, is what the codec made as inter frame `k` of a GOP
/// that starts at picture 0 and is as long as the caller's, to follow the frame
/// before it, not error resilient and without metadata.
pub proof fn law_other_frames_are_the_codecs_inter_frames<E: FrameEncoder>(
    codec: &E,
    input: GopInput<E>,
    inter_cfg: E::InterConfig,
    trace: Seq<CodedFrame<E>>,
    k: int,
) -> (t35: Vec<E::T35>)
    requires
        is_run(codec, input, inter_cfg, trace),
        1 <= k < trace.len(),
    ensures
        call_ensures(
            E::new_inter_frame,
            (
                codec,
                &trace[k - 1].closed,
                &inter_cfg,
                0u64,
                k as u64,
                input.yuvs.len() as u64,
                false,
                t35,
            ),
            Some(trace[k].built),
        ),
        t35@.len() == 0,
{
    assert(frame_follows(codec, input, inter_cfg, trace, k));
    let reply = Some(trace[k].built);
    choose|t35: Vec<E::T35>|
        {
            &&& t35@.len() == 0
            &&& #[trigger] call_ensures(
                E::new_inter_frame,
                (
                    codec,
                    &trace[k - 1].closed,
                    &inter_cfg,
                    0u64,
                    k as u64,
                    input.yuvs.len() as u64,
                    false,
                    t35,
                ),
                reply,
            )
        }
}

/// An inter frame is encoded with what the codec made, field by field, but for
/// segmentation, which is off, the references, which are those that the frame
/// before it left, and the sign bias. So it stays the inter frame that it is.
pub proof fn law_inter_frame_is_encoded_as_built<E: FrameEncoder>(
    codec: &E,
    input: GopInput<E>,
    inter_cfg: E::InterConfig,
    trace: Seq<CodedFrame<E>>,
    k: int,
)
    requires
        is_run(codec, input, inter_cfg, trace),
        1 <= k < trace.len(),
    ensures
        trace[k].fi.frame_type == trace[k].built.frame_type,
        trace[k].fi.config == trace[k].built.config,
        trace[k].fi.sequence == trace[k].built.sequence,
        trace[k].fi.width == trace[k].built.width,
        trace[k].fi.height == trace[k].built.height,
        trace[k].fi.coded_frame_data == trace[k].built.coded_frame_data,
        trace[k].fi.rec_buffer == trace[k - 1].closed.rec_buffer,
        trace[k].fi.enable_segmentation == false,
{
    assert(frame_follows(codec, input, inter_cfg, trace, k));
}

/// The whole sign bias of an inter frame is the codec's reply to that frame, with
/// segmentation off and with the references that the frame before it left.
pub proof fn law_sign_bias_is_the_codecs<E: FrameEncoder>(
    codec: &E,
    input: GopInput<E>,
    inter_cfg: E::InterConfig,
    trace: Seq<CodedFrame<E>>,
    k: int,
) -> (asked: FrameInvariants<E>)
    requires
        is_run(codec, input, inter_cfg, trace),
        1 <= k < trace.len(),
    ensures
        call_ensures(
            E::ref_frame_sign_bias,
            (codec, &asked),
            trace[k].fi.ref_frame_sign_bias,
        ),
        asked.frame_type == trace[k].built.frame_type,
        asked.config == trace[k].built.config,
        asked.sequence == trace[k].built.sequence,
        asked.width == trace[k].built.width,
        asked.height == trace[k].built.height,
        asked.coded_frame_data == trace[k].built.coded_frame_data,
        asked.ref_frame_sign_bias == trace[k].built.ref_frame_sign_bias,
        asked.rec_buffer == trace[k - 1].closed.rec_buffer,
        asked.enable_segmentation == false,
{
    assert(frame_follows(codec, input, inter_cfg, trace, k));
    FrameInvariants {
        enable_segmentation: false,
        rec_buffer: trace[k - 1].closed.rec_buffer,
        ..trace[k].built
    }
}

/// The state of frame `k` is what the codec made for picture `k` and the
/// invariants that the frame is encoded with.
pub proof fn law_state_is_made_from_the_picture<E: FrameEncoder>(
    codec: &E,
    input: GopInput<E>,
    inter_cfg: E::InterConfig,
    trace: Seq<CodedFrame<E>>,
    k: int,
)
    requires
        is_run(codec, input, inter_cfg, trace),
        0 <= k < trace.len(),
    ensures
        trace.len() <= input.yuvs.len(),
        call_ensures(
            E::new_frame_state,
            (codec, &trace[k].fi, input.yuvs[k]),
            trace[k].initial,
        ),
{
    assert(frame_follows(codec, input, inter_cfg, trace, k));
}

/// With the lookahead on, every frame that is not a key frame, wherever in the
/// GOP it stands, is encoded with the motion estimates that the codec computes
/// from its invariants, the state made for it and the inter configuration.
pub proof fn law_lookahead_estimates_the_motion_of_every_frame<E: FrameEncoder>(
    codec: &E,
    input: GopInput<E>,
    inter_cfg: E::InterConfig,
    trace: Seq<CodedFrame<E>>,
    k: int,
)
    requires
        is_run(codec, input, inter_cfg, trace),
        0 <= k < trace.len(),
        input.lookahead,
        trace[k].fi.frame_type != FrameType::KEY,
    ensures
        call_ensures(
            E::compute_motion_vectors,
            (codec, &trace[k].fi, &trace[k].initial, &inter_cfg),
            trace[k].refined.frame_me_stats,
        ),
{
    assert(frame_follows(codec, input, inter_cfg, trace, k));
}

/// Apart from motion estimates, a frame is encoded from the state made for it.
/// Its motion estimates are those of that state too, if it is a key frame or the
/// lookahead is off.
pub proof fn law_state_is_encoded_as_made<E: FrameEncoder>(
    codec: &E,
    input: GopInput<E>,
    inter_cfg: E::InterConfig,
    trace: Seq<CodedFrame<E>>,
    k: int,
)
    requires
        is_run(codec, input, inter_cfg, trace),
        0 <= k < trace.len(),
    ensures
        trace[k].refined.rec == trace[k].initial.rec,
        trace[k].refined.data == trace[k].initial.data,
        !input.lookahead || trace[k].fi.frame_type == FrameType::KEY
            ==> trace[k].refined.frame_me_stats == trace[k].initial.frame_me_stats,
{
    assert(frame_follows(codec, input, inter_cfg, trace, k));
}

/// The packet and the recording of a frame, and the state after it, are the
/// codec's reply to the invariants, the state and the inter configuration of that
/// frame.
pub proof fn law_results_are_the_codecs<E: FrameEncoder>(
    codec: &E,
    input: GopInput<E>,
    inter_cfg: E::InterConfig,
    trace: Seq<CodedFrame<E>>,
    k: int,
)
    requires
        is_run(codec, input, inter_cfg, trace),
        0 <= k < trace.len(),
    ensures
        call_ensures(
            E::encode_frame_with_phasm_tee,
            (codec, &trace[k].fi, trace[k].refined, &inter_cfg),
            (trace[k].coded, trace[k].packet, trace[k].recording),
        ),
{
    assert(frame_follows(codec, input, inter_cfg, trace, k));
}

/// The reconstruction of a frame is padded by the codec to the size of the frame,
/// in one plane of a monochrome frame and in three of any other. Nothing else of
/// its state changes.
pub proof fn law_reconstruction_is_padded<E: FrameEncoder>(
    codec: &E,
    input: GopInput<E>,
    inter_cfg: E::InterConfig,
    trace: Seq<CodedFrame<E>>,
    k: int,
)
    requires
        is_run(codec, input, inter_cfg, trace),
        0 <= k < trace.len(),
    ensures
        call_ensures(
            E::pad,
            (
                codec,
                &*trace[k].coded.rec,
                trace[k].fi.width,
                trace[k].fi.height,
                if trace[k].fi.sequence.chroma_sampling is Cs400 {
                    1usize
                } else {
                    3usize
                },
            ),
            *trace[k].padded.rec,
        ),
        trace[k].padded.frame_me_stats == trace[k].coded.frame_me_stats,
        trace[k].padded.data == trace[k].coded.data,
{
    assert(frame_follows(codec, input, inter_cfg, trace, k));
}

/// The references that a frame leaves are the codec's reply to its number, its
/// invariants and its padded state. Nothing else of its invariants changes.
pub proof fn law_references_are_the_codecs<E: FrameEncoder>(
    codec: &E,
    input: GopInput<E>,
    inter_cfg: E::InterConfig,
    trace: Seq<CodedFrame<E>>,
    k: int,
)
    requires
        is_run(codec, input, inter_cfg, trace),
        0 <= k < trace.len(),
    ensures
        call_ensures(
            E::update_rec_buffer,
            (codec, k as u64, &trace[k].fi, &trace[k].padded),
            trace[k].closed.rec_buffer,
        ),
        trace[k].closed.frame_type == trace[k].fi.frame_type,
        trace[k].closed.config == trace[k].fi.config,
        trace[k].closed.sequence == trace[k].fi.sequence,
        trace[k].closed.width == trace[k].fi.width,
        trace[k].closed.height == trace[k].fi.height,
        trace[k].closed.coded_frame_data == trace[k].fi.coded_frame_data,
        trace[k].closed.enable_segmentation == trace[k].fi.enable_segmentation,
        trace[k].closed.ref_frame_sign_bias == trace[k].fi.ref_frame_sign_bias,
{
    assert(frame_follows(codec, input, inter_cfg, trace, k));
}

/// Making a reconstruction a reference pads it to the size of the frame, in one
/// plane of a monochrome frame and in three of any other, and stores it padded.
/// Nothing else of the frame changes.
pub proof fn law_reference_is_padded_first<E: FrameEncoder>(
    codec: &E,
    output_frameno: u64,
    fi: FrameInvariants<E>,
    fs: FrameState<E>,
    padded: FrameState<E>,
    closed: FrameInvariants<E>,
)
    requires
        reference_updated(codec, output_frameno, fi, fs, padded, closed),
    ensures
        call_ensures(
            E::pad,
            (
                codec,
                &*fs.rec,
                fi.width,
                fi.height,
                if fi.sequence.chroma_sampling is Cs400 {
                    1usize
                } else {
                    3usize
                },
            ),
            *padded.rec,
        ),
        padded.frame_me_stats == fs.frame_me_stats,
        padded.data == fs.data,
        call_ensures(
            E::update_rec_buffer,
            (codec, output_frameno, &fi, &padded),
            closed.rec_buffer,
        ),
        closed.frame_type == fi.frame_type,
        closed.config == fi.config,
        closed.sequence == fi.sequence,
        closed.width == fi.width,
        closed.height == fi.height,
        closed.coded_frame_data == fi.coded_frame_data,
        closed.enable_segmentation == fi.enable_segmentation,
        closed.ref_frame_sign_bias == fi.ref_frame_sign_bias,
{
}

/// Refining a window gives every frame in it that is not a key frame, of whatever
/// size and in whatever place, the motion estimates that the codec computes from
/// its invariants, its state and the inter configuration.
pub proof fn law_window_estimates_the_motion_of_every_frame<E: FrameEncoder>(
    codec: &E,
    inter_cfg: E::InterConfig,
    before: Seq<LookaheadWindowFrame<E>>,
    after: Seq<LookaheadWindowFrame<E>>,
    k: int,
)
    requires
        window_refined(codec, inter_cfg, before, after),
        0 <= k < before.len(),
        before[k].fi.frame_type != FrameType::KEY,
    ensures
        call_ensures(
            E::compute_motion_vectors,
            (codec, &before[k].fi, &before[k].fs, &inter_cfg),
            after[k].fs.frame_me_stats,
        ),
{
    assert(window_frame_refined(codec, inter_cfg, before[k], after[k]));
}

/// Refining a window changes nothing but motion estimates, and those of no key
/// frame.
pub proof fn law_window_keeps_everything_else<E: FrameEncoder>(
    codec: &E,
    inter_cfg: E::InterConfig,
    before: Seq<LookaheadWindowFrame<E>>,
    after: Seq<LookaheadWindowFrame<E>>,
    k: int,
)
    requires
        window_refined(codec, inter_cfg, before, after),
    ensures
        after.len() == before.len(),
        0 <= k < before.len() ==> {
            &&& after[k].fi == before[k].fi
            &&& after[k].yuv == before[k].yuv
            &&& after[k].output_frameno == before[k].output_frameno
            &&& after[k].fs.rec == before[k].fs.rec
            &&& after[k].fs.data == before[k].fs.data
            &&& before[k].fi.frame_type == FrameType::KEY ==> after[k].fs.frame_me_stats
                == before[k].fs.frame_me_stats
        },
{
    if 0 <= k < before.len() {
        assert(window_frame_refined(codec, inter_cfg, before[k], after[k]));
    }
}

/// Refining one frame gives it the motion estimates that the codec computes, if it
/// is not a key frame, and changes nothing else.
pub proof fn law_one_frame_gets_its_motion_estimates<E: FrameEncoder>(
    codec: &E,
    inter_cfg: E::InterConfig,
    fi: FrameInvariants<E>,
    fs: FrameState<E>,
    refined_fi: FrameInvariants<E>,
    refined_fs: FrameState<E>,
)
    requires
        one_frame_refined(codec, inter_cfg, fi, fs, refined_fi, refined_fs),
    ensures
        refined_fi == fi,
        refined_fs.rec == fs.rec,
        refined_fs.data == fs.data,
        fi.frame_type != FrameType::KEY ==> call_ensures(
            E::compute_motion_vectors,
            (codec, &fi, &fs, &inter_cfg),
            refined_fs.frame_me_stats,
        ),
        fi.frame_type == FrameType::KEY ==> refined_fs.frame_me_stats == fs.frame_me_stats,
{
}

} // verus!

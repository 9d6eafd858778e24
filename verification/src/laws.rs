//! What holds of every run of the driver, whatever codec it runs with.
use crate::encoder::{
    EncoderConfig, FrameEncoder, FrameInvariants, FrameState, FrameType, Sequence,
    INTER_REFS_PER_FRAME,
};
use crate::phasm_stego::{
    frame_encoded, frame_follows, frame_prepared, gop_encoded, gop_refused, inter_frame_built,
    is_run, key_frame_built, knob_enables, left_before, one_frame_refined, outputs, plane_count,
    reference_updated, CodedFrame, GopInput,
};
use crate::phasm_stego_lookahead::{window_frame_refined, window_refined, LookaheadWindowFrame};
use crate::text::unsigned_value;
use std::sync::Arc;
use vstd::prelude::*;

verus! {

/// A run behind the results of a GOP.
proof fn lemma_run_behind_results<E: FrameEncoder>(
    codec: &E,
    input: GopInput<E>,
    results: Seq<(Vec<u8>, E::Recording)>,
) -> (run: (E::InterConfig, Seq<CodedFrame<E>>))
    requires
        gop_encoded(codec, input, results),
    ensures
        is_run(codec, input, run.0, run.1),
        run.1.len() == input.yuvs.len(),
        results == outputs(run.1),
{
    choose|inter_cfg: E::InterConfig, trace: Seq<CodedFrame<E>>|
        {
            &&& #[trigger] is_run(codec, input, inter_cfg, trace)
            &&& trace.len() == input.yuvs.len()
            &&& results == outputs(trace)
        }
}

/// A run behind the refusal of a GOP.
proof fn lemma_run_behind_refusal<E: FrameEncoder>(codec: &E, input: GopInput<E>, k: int) -> (run: (
    E::InterConfig,
    Seq<CodedFrame<E>>,
))
    requires
        gop_refused(codec, input, k),
    ensures
        is_run(codec, input, run.0, run.1),
        0 < k == run.1.len() < input.yuvs.len(),
        inter_frame_built(codec, input, run.0, run.1[k - 1].closed, k, None),
{
    choose|inter_cfg: E::InterConfig, trace: Seq<CodedFrame<E>>|
        {
            &&& #[trigger] is_run(codec, input, inter_cfg, trace)
            &&& 0 < k == trace.len() < input.yuvs.len()
            &&& inter_frame_built(codec, input, inter_cfg, trace[k - 1].closed, k, None)
        }
}

/// A run behind the first results of a GOP.
proof fn lemma_run_behind_beginning<E: FrameEncoder>(
    codec: &E,
    input: GopInput<E>,
    results: Seq<(Vec<u8>, E::Recording)>,
) -> (run: (E::InterConfig, Seq<CodedFrame<E>>))
    requires
        gop_begun(codec, input, results),
    ensures
        is_run(codec, input, run.0, run.1),
        run.1.len() == results.len(),
        results == outputs(run.1),
{
    let run = choose|inter_cfg: E::InterConfig, trace: Seq<CodedFrame<E>>|
        {
            &&& #[trigger] is_run(codec, input, inter_cfg, trace)
            &&& results == outputs(trace)
        };
    assert(outputs(run.1).len() == run.1.len());
    run
}

/// Two empty lists hold the same.
proof fn lemma_empty_lists_agree<T>()
    ensures
        forall|a: Vec<T>, b: Vec<T>|
            #![trigger a@, b@]
            a@.len() == 0 && b@.len() == 0 ==> a@ == b@,
{
    assert forall|a: Vec<T>, b: Vec<T>|
        #![trigger a@, b@]
        a@.len() == 0 && b@.len() == 0 implies a@ == b@ by {
        assert(a@ =~= b@);
    }
}

/// Encoding picture `k` of the GOP gave `result`.
pub open spec fn is_result_of<E: FrameEncoder>(
    codec: &E,
    input: GopInput<E>,
    k: int,
    result: (Vec<u8>, E::Recording),
) -> bool {
    exists|inter_cfg: E::InterConfig, frame: CodedFrame<E>|
        {
            &&& #[trigger] frame_encoded(codec, input, inter_cfg, k, frame)
            &&& result == (frame.packet, frame.recording)
        }
}

/// There is one result for each picture, in the order of the pictures: result
/// `k` is what encoding picture `k` gave.
pub proof fn law_output_order_is_input_order<E: FrameEncoder>(
    codec: &E,
    input: GopInput<E>,
    results: Seq<(Vec<u8>, E::Recording)>,
)
    requires
        gop_encoded(codec, input, results),
    ensures
        results.len() == input.yuvs.len(),
        forall|k: int|
            0 <= k < results.len() ==> is_result_of(codec, input, k, #[trigger] results[k]),
{
    let (inter_cfg, trace) = lemma_run_behind_results(codec, input, results);
    assert forall|k: int| 0 <= k < results.len() implies is_result_of(
        codec,
        input,
        k,
        #[trigger] results[k],
    ) by {
        assert(frame_follows(codec, input, inter_cfg, trace, k));
        assert(frame_encoded(codec, input, inter_cfg, k, trace[k]));
    }
}

/// The first frame of a GOP is a key frame, and each other is an inter frame
/// made after the frame before it.
pub proof fn law_key_frame_first_then_inter_frames<E: FrameEncoder>(
    codec: &E,
    input: GopInput<E>,
    inter_cfg: E::InterConfig,
    trace: Seq<CodedFrame<E>>,
)
    requires
        is_run(codec, input, inter_cfg, trace),
    ensures
        trace.len() > 0 ==> key_frame_built(codec, input, trace[0].built),
        forall|k: int|
            1 <= k < trace.len() ==> inter_frame_built(
                codec,
                input,
                inter_cfg,
                trace[k - 1].closed,
                k,
                Some((#[trigger] trace[k]).built),
            ),
{
    if trace.len() > 0 {
        assert(frame_follows(codec, input, inter_cfg, trace, 0));
    }
    assert forall|k: int| 1 <= k < trace.len() implies inter_frame_built(
        codec,
        input,
        inter_cfg,
        trace[k - 1].closed,
        k,
        Some((#[trigger] trace[k]).built),
    ) by {
        assert(frame_follows(codec, input, inter_cfg, trace, k));
    }
}

/// Each inter frame is encoded with the references that the frame before it
/// left: those with the padded reconstruction of that frame stored among them.
pub proof fn law_references_are_chained<E: FrameEncoder>(
    codec: &E,
    input: GopInput<E>,
    inter_cfg: E::InterConfig,
    trace: Seq<CodedFrame<E>>,
    k: int,
)
    requires
        is_run(codec, input, inter_cfg, trace),
        1 <= k < trace.len(),
    ensures
        trace[k].fi.rec_buffer == trace[k - 1].closed.rec_buffer,
        reference_updated(
            codec,
            (k - 1) as u64,
            trace[k - 1].fi,
            trace[k - 1].coded,
            trace[k - 1].padded,
            trace[k - 1].closed,
        ),
        call_ensures(
            E::update_rec_buffer,
            (codec, (k - 1) as u64, &trace[k - 1].fi, &trace[k - 1].padded),
            trace[k].fi.rec_buffer,
        ),
{
    assert(frame_follows(codec, input, inter_cfg, trace, k));
    assert(frame_follows(codec, input, inter_cfg, trace, k - 1));
}

/// The recording of a frame is made with its reconstruction as encoding left it.
/// Padding comes after that, works on a copy, and reaches the references alone.
pub proof fn law_recording_precedes_padding<E: FrameEncoder>(
    codec: &E,
    input: GopInput<E>,
    inter_cfg: E::InterConfig,
    trace: Seq<CodedFrame<E>>,
    k: int,
)
    requires
        is_run(codec, input, inter_cfg, trace),
        0 <= k < trace.len(),
    ensures
        outputs(trace)[k] == (trace[k].packet, trace[k].recording),
        call_ensures(
            E::encode_frame_with_phasm_tee,
            (codec, &trace[k].fi, trace[k].refined, &inter_cfg),
            (trace[k].coded, trace[k].packet, trace[k].recording),
        ),
        call_ensures(
            E::pad,
            (
                codec,
                &*trace[k].coded.rec,
                trace[k].fi.width,
                trace[k].fi.height,
                plane_count(trace[k].fi.sequence.chroma_sampling) as usize,
            ),
            *trace[k].padded.rec,
        ),
        trace[k].padded == (FrameState::<E> { rec: trace[k].padded.rec, ..trace[k].coded }),
        trace[k].closed == (FrameInvariants::<E> {
            rec_buffer: trace[k].closed.rec_buffer,
            ..trace[k].fi
        }),
{
    assert(frame_follows(codec, input, inter_cfg, trace, k));
}

/// No frame is divided into segments.
pub proof fn law_no_segmentation<E: FrameEncoder>(
    codec: &E,
    input: GopInput<E>,
    inter_cfg: E::InterConfig,
    trace: Seq<CodedFrame<E>>,
    k: int,
)
    requires
        is_run(codec, input, inter_cfg, trace),
        0 <= k < trace.len(),
    ensures
        !trace[k].fi.enable_segmentation,
        !trace[k].closed.enable_segmentation,
{
    assert(frame_follows(codec, input, inter_cfg, trace, k));
}

/// The lookahead changes nothing of a frame but its motion estimates, and of a
/// key frame nothing at all.
pub proof fn law_lookahead_changes_motion_estimates_only<E: FrameEncoder>(
    codec: &E,
    input: GopInput<E>,
    inter_cfg: E::InterConfig,
    trace: Seq<CodedFrame<E>>,
    k: int,
)
    requires
        is_run(codec, input, inter_cfg, trace),
        0 <= k < trace.len(),
    ensures
        trace[k].refined == (FrameState::<E> {
            frame_me_stats: trace[k].refined.frame_me_stats,
            ..trace[k].initial
        }),
        trace[k].fi.frame_type == FrameType::KEY ==> trace[k].refined == trace[k].initial,
{
    assert(frame_follows(codec, input, inter_cfg, trace, k));
}

/// A run of a driver that knows of no lookahead: each frame is encoded from the
/// state that the codec made for it.
pub open spec fn is_plain_run<E: FrameEncoder>(
    codec: &E,
    input: GopInput<E>,
    inter_cfg: E::InterConfig,
    trace: Seq<CodedFrame<E>>,
) -> bool {
    &&& call_ensures(
        E::new_inter_config,
        (codec, &input.config.low_latency_variant()),
        inter_cfg,
    )
    &&& trace.len() <= input.yuvs.len()
    &&& forall|k: int|
        0 <= k < trace.len() ==> #[trigger] plain_frame_follows(codec, input, inter_cfg, trace, k)
}

/// Frame `k` of `trace` went through such a driver after those before it.
pub open spec fn plain_frame_follows<E: FrameEncoder>(
    codec: &E,
    input: GopInput<E>,
    inter_cfg: E::InterConfig,
    trace: Seq<CodedFrame<E>>,
    k: int,
) -> bool {
    let frame = trace[k];
    &&& frame_prepared(codec, input, inter_cfg, left_before(trace, k), k, frame)
    &&& frame.refined == frame.initial
    &&& call_ensures(E::new_frame_state, (codec, &frame.fi, input.yuvs[k]), frame.initial)
    &&& call_ensures(
        E::encode_frame_with_phasm_tee,
        (codec, &frame.fi, frame.initial, &inter_cfg),
        (frame.coded, frame.packet, frame.recording),
    )
    &&& reference_updated(codec, k as u64, frame.fi, frame.coded, frame.padded, frame.closed)
}

/// A run of such a driver over all pictures of the GOP gives `results`.
pub open spec fn gop_plainly_encoded<E: FrameEncoder>(
    codec: &E,
    input: GopInput<E>,
    results: Seq<(Vec<u8>, E::Recording)>,
) -> bool {
    exists|inter_cfg: E::InterConfig, trace: Seq<CodedFrame<E>>|
        {
            &&& #[trigger] is_plain_run(codec, input, inter_cfg, trace)
            &&& trace.len() == input.yuvs.len()
            &&& results == outputs(trace)
        }
}

/// With the lookahead off, the driver gives what one without a lookahead gives,
/// byte for byte.
pub proof fn law_lookahead_off_is_no_lookahead<E: FrameEncoder>(
    codec: &E,
    input: GopInput<E>,
    results: Seq<(Vec<u8>, E::Recording)>,
)
    requires
        !input.lookahead,
    ensures
        gop_encoded(codec, input, results) <==> gop_plainly_encoded(codec, input, results),
{
    assert forall|inter_cfg: E::InterConfig, trace: Seq<CodedFrame<E>>| #[trigger]
        is_run(codec, input, inter_cfg, trace) implies is_plain_run(
        codec,
        input,
        inter_cfg,
        trace,
    ) by {
        assert forall|k: int| 0 <= k < trace.len() implies #[trigger] plain_frame_follows(
            codec,
            input,
            inter_cfg,
            trace,
            k,
        ) by {
            assert(frame_follows(codec, input, inter_cfg, trace, k));
        }
    }
    assert forall|inter_cfg: E::InterConfig, trace: Seq<CodedFrame<E>>| #[trigger]
        is_plain_run(codec, input, inter_cfg, trace) implies is_run(
        codec,
        input,
        inter_cfg,
        trace,
    ) by {
        assert forall|k: int| 0 <= k < trace.len() implies #[trigger] frame_follows(
            codec,
            input,
            inter_cfg,
            trace,
            k,
        ) by {
            assert(plain_frame_follows(codec, input, inter_cfg, trace, k));
        }
    }
}

/// A run in which every frame is a key frame is a run with the lookahead on if
/// and only if it is one with the lookahead off.
pub proof fn law_lookahead_passes_key_frames_by<E: FrameEncoder>(
    codec: &E,
    input: GopInput<E>,
    inter_cfg: E::InterConfig,
    trace: Seq<CodedFrame<E>>,
)
    requires
        forall|k: int|
            0 <= k < trace.len() ==> (#[trigger] trace[k]).fi.frame_type == FrameType::KEY,
    ensures
        is_run(codec, GopInput { lookahead: true, ..input }, inter_cfg, trace) <==> is_run(
            codec,
            GopInput { lookahead: false, ..input },
            inter_cfg,
            trace,
        ),
{
    let on = GopInput::<E> { lookahead: true, ..input };
    let off = GopInput::<E> { lookahead: false, ..input };
    assert forall|k: int| 0 <= k < trace.len() implies frame_follows(
        codec,
        on,
        inter_cfg,
        trace,
        k,
    ) == frame_follows(codec, off, inter_cfg, trace, k) by {
        lemma_lookahead_is_no_concern_of_preparation(codec, input, inter_cfg, trace, k);
    }
    if is_run(codec, on, inter_cfg, trace) {
        assert forall|k: int| 0 <= k < trace.len() implies #[trigger] frame_follows(
            codec,
            off,
            inter_cfg,
            trace,
            k,
        ) by {
            assert(frame_follows(codec, on, inter_cfg, trace, k));
        }
    }
    if is_run(codec, off, inter_cfg, trace) {
        assert forall|k: int| 0 <= k < trace.len() implies #[trigger] frame_follows(
            codec,
            on,
            inter_cfg,
            trace,
            k,
        ) by {
            assert(frame_follows(codec, off, inter_cfg, trace, k));
        }
    }
}

/// A frame gets the same invariants with the lookahead on as with it off.
proof fn lemma_lookahead_is_no_concern_of_preparation<E: FrameEncoder>(
    codec: &E,
    input: GopInput<E>,
    inter_cfg: E::InterConfig,
    trace: Seq<CodedFrame<E>>,
    k: int,
)
    ensures
        frame_prepared(
            codec,
            GopInput { lookahead: true, ..input },
            inter_cfg,
            left_before(trace, k),
            k,
            trace[k],
        ) == frame_prepared(
            codec,
            GopInput { lookahead: false, ..input },
            inter_cfg,
            left_before(trace, k),
            k,
            trace[k],
        ),
{
    let on = GopInput::<E> { lookahead: true, ..input };
    let off = GopInput::<E> { lookahead: false, ..input };
    assert(key_frame_built(codec, on, trace[k].built) == key_frame_built(
        codec,
        off,
        trace[k].built,
    ));
}

/// The GOP with low latency asked for or not.
pub open spec fn with_latency<E: FrameEncoder>(input: GopInput<E>, low_latency: bool) -> GopInput<
    E,
> {
    GopInput {
        config: Arc::new(EncoderConfig { low_latency, ..*input.config }),
        ..input
    }
}

/// Whether the settings ask for low latency makes no difference: the same
/// pictures give the same results, or are refused at the same frame, either way.
pub proof fn law_low_latency_is_enforced<E: FrameEncoder>(
    codec: &E,
    input: GopInput<E>,
    low_latency: bool,
    results: Seq<(Vec<u8>, E::Recording)>,
    k: int,
)
    ensures
        gop_encoded(codec, input, results) <==> gop_encoded(
            codec,
            with_latency(input, low_latency),
            results,
        ),
        gop_refused(codec, input, k) <==> gop_refused(
            codec,
            with_latency(input, low_latency),
            k,
        ),
{
    let other = with_latency(input, low_latency);
    lemma_low_latency_setting_is_ignored(codec, input, other, results, k);
    lemma_low_latency_setting_is_ignored(codec, other, input, results, k);
}

/// What comes of a GOP under one low latency setting comes of it under the other.
proof fn lemma_low_latency_setting_is_ignored<E: FrameEncoder>(
    codec: &E,
    one: GopInput<E>,
    other: GopInput<E>,
    results: Seq<(Vec<u8>, E::Recording)>,
    k: int,
)
    requires
        one.yuvs == other.yuvs,
        one.sequence == other.sequence,
        one.lookahead == other.lookahead,
        one.config.low_latency_variant() == other.config.low_latency_variant(),
    ensures
        gop_encoded(codec, one, results) ==> gop_encoded(codec, other, results),
        gop_refused(codec, one, k) ==> gop_refused(codec, other, k),
{
    assert forall|inter_cfg: E::InterConfig, trace: Seq<CodedFrame<E>>| #[trigger]
        is_run(codec, one, inter_cfg, trace) implies is_run(codec, other, inter_cfg, trace) by {
        assert forall|i: int| 0 <= i < trace.len() implies #[trigger] frame_follows(
            codec,
            other,
            inter_cfg,
            trace,
            i,
        ) by {
            assert(frame_follows(codec, one, inter_cfg, trace, i));
        }
    }
}

/// A GOP is refused only if the codec has no inter frame for one of its places.
pub proof fn law_refused_only_without_inter_frame<E: FrameEncoder>(
    codec: &E,
    input: GopInput<E>,
    k: int,
)
    requires
        forall|inter_cfg: E::InterConfig, previous: FrameInvariants<E>|
            !#[trigger] inter_frame_built(codec, input, inter_cfg, previous, k, None),
    ensures
        !gop_refused(codec, input, k),
{
}

/// Motion estimation of `codec` gives the same reply to the same arguments.
pub open spec fn motion_is_deterministic<E: FrameEncoder>(codec: &E) -> bool {
    forall|
        fi: FrameInvariants<E>,
        fs: FrameState<E>,
        inter_cfg: E::InterConfig,
        r1: E::FrameMEStats,
        r2: E::FrameMEStats,
    |
        #[trigger] call_ensures(E::compute_motion_vectors, (codec, &fi, &fs, &inter_cfg), r1)
            && #[trigger] call_ensures(
            E::compute_motion_vectors,
            (codec, &fi, &fs, &inter_cfg),
            r2,
        ) ==> r1 == r2
}

/// Every operation of `codec` gives the same reply to the same arguments. Of a
/// list of metadata or a packet, what it holds counts.
pub open spec fn is_deterministic<E: FrameEncoder>(codec: &E) -> bool {
    &&& forall|config: EncoderConfig<E::Settings>, r1: E::InterConfig, r2: E::InterConfig|
        #[trigger] call_ensures(E::new_inter_config, (codec, &config), r1) && #[trigger] call_ensures(
            E::new_inter_config,
            (codec, &config),
            r2,
        ) ==> r1 == r2
    &&& forall|
        config: Arc<EncoderConfig<E::Settings>>,
        sequence: Arc<Sequence<E::SequenceHeader>>,
        start: u64,
        m1: Vec<E::T35>,
        m2: Vec<E::T35>,
        r1: FrameInvariants<E>,
        r2: FrameInvariants<E>,
    |
        m1@ == m2@ && #[trigger] call_ensures(
            E::new_key_frame,
            (codec, config, sequence, start, m1),
            r1,
        ) && #[trigger] call_ensures(E::new_key_frame, (codec, config, sequence, start, m2), r2)
            ==> r1 == r2
    &&& forall|
        previous: FrameInvariants<E>,
        inter_cfg: E::InterConfig,
        start: u64,
        output_frameno: u64,
        next: u64,
        error_resilient: bool,
        m1: Vec<E::T35>,
        m2: Vec<E::T35>,
        r1: Option<FrameInvariants<E>>,
        r2: Option<FrameInvariants<E>>,
    |
        m1@ == m2@ && #[trigger] call_ensures(
            E::new_inter_frame,
            (codec, &previous, &inter_cfg, start, output_frameno, next, error_resilient, m1),
            r1,
        ) && #[trigger] call_ensures(
            E::new_inter_frame,
            (codec, &previous, &inter_cfg, start, output_frameno, next, error_resilient, m2),
            r2,
        ) ==> r1 == r2
    &&& forall|
        fi: FrameInvariants<E>,
        frame: Arc<E::Frame>,
        r1: FrameState<E>,
        r2: FrameState<E>,
    |
        #[trigger] call_ensures(E::new_frame_state, (codec, &fi, frame), r1)
            && #[trigger] call_ensures(E::new_frame_state, (codec, &fi, frame), r2) ==> r1 == r2
    &&& forall|
        fi: FrameInvariants<E>,
        r1: [bool; INTER_REFS_PER_FRAME],
        r2: [bool; INTER_REFS_PER_FRAME],
    |
        #[trigger] call_ensures(E::ref_frame_sign_bias, (codec, &fi), r1)
            && #[trigger] call_ensures(E::ref_frame_sign_bias, (codec, &fi), r2) ==> r1 == r2
    &&& motion_is_deterministic(codec)
    &&& forall|
        fi: FrameInvariants<E>,
        fs: FrameState<E>,
        inter_cfg: E::InterConfig,
        r1: (FrameState<E>, Vec<u8>, E::Recording),
        r2: (FrameState<E>, Vec<u8>, E::Recording),
    |
        #[trigger] call_ensures(E::encode_frame_with_phasm_tee, (codec, &fi, fs, &inter_cfg), r1)
            && #[trigger] call_ensures(
            E::encode_frame_with_phasm_tee,
            (codec, &fi, fs, &inter_cfg),
            r2,
        ) ==> r1.0 == r2.0 && r1.1@ == r2.1@ && r1.2 == r2.2
    &&& forall|
        frame: E::Frame,
        width: usize,
        height: usize,
        planes: usize,
        r1: E::Frame,
        r2: E::Frame,
    |
        #[trigger] call_ensures(E::pad, (codec, &frame, width, height, planes), r1)
            && #[trigger] call_ensures(E::pad, (codec, &frame, width, height, planes), r2) ==> r1
            == r2
    &&& forall|
        output_frameno: u64,
        fi: FrameInvariants<E>,
        fs: FrameState<E>,
        r1: E::RecBuffer,
        r2: E::RecBuffer,
    |
        #[trigger] call_ensures(E::update_rec_buffer, (codec, output_frameno, &fi, &fs), r1)
            && #[trigger] call_ensures(
            E::update_rec_buffer,
            (codec, output_frameno, &fi, &fs),
            r2,
        ) ==> r1 == r2
}

/// Two results hold the same bytes and the same recording.
pub open spec fn same_result<E: FrameEncoder>(
    one: (Vec<u8>, E::Recording),
    other: (Vec<u8>, E::Recording),
) -> bool {
    &&& one.0@ == other.0@
    &&& one.1 == other.1
}

/// Two lists of results are the same, result by result.
pub open spec fn same_results<E: FrameEncoder>(
    one: Seq<(Vec<u8>, E::Recording)>,
    other: Seq<(Vec<u8>, E::Recording)>,
) -> bool {
    &&& one.len() == other.len()
    &&& forall|j: int| 0 <= j < one.len() ==> same_result::<E>(#[trigger] one[j], other[j])
}

/// Two frames went the same way, up to which list holds the bytes of the packet.
spec fn same_frame<E: FrameEncoder>(one: CodedFrame<E>, other: CodedFrame<E>) -> bool {
    &&& one.packet@ == other.packet@
    &&& one == (CodedFrame::<E> { packet: one.packet, ..other })
}

/// Under a deterministic codec, frames that start from the same invariants end
/// in the same way.
proof fn lemma_same_frame_again<E: FrameEncoder>(
    codec: &E,
    input: GopInput<E>,
    inter_cfg: E::InterConfig,
    previous: Option<FrameInvariants<E>>,
    k: int,
    a: CodedFrame<E>,
    b: CodedFrame<E>,
)
    requires
        is_deterministic(codec),
        frame_prepared(codec, input, inter_cfg, previous, k, a),
        frame_prepared(codec, input, inter_cfg, previous, k, b),
        frame_encoded(codec, input, inter_cfg, k, a),
        frame_encoded(codec, input, inter_cfg, k, b),
    ensures
        same_frame(a, b),
{
    lemma_empty_lists_agree::<E::T35>();
    assert(a.built == b.built);
    assert(a.fi == b.fi);
    assert(a.initial == b.initial);
    assert(a.refined == b.refined);
    let reply_a = (a.coded, a.packet, a.recording);
    let reply_b = (b.coded, b.packet, b.recording);
    assert(reply_a.0 == reply_b.0 && reply_a.1@ == reply_b.1@ && reply_a.2 == reply_b.2);
    assert(*a.padded.rec == *b.padded.rec);
    assert(a.padded == b.padded);
    assert(a.closed == b.closed);
}

/// The two GOPs have the same settings and length, and the same pictures before
/// picture `k`.
pub open spec fn same_up_to<E: FrameEncoder>(one: GopInput<E>, other: GopInput<E>, k: int) -> bool {
    &&& one.config == other.config
    &&& one.sequence == other.sequence
    &&& one.lookahead == other.lookahead
    &&& one.yuvs.len() == other.yuvs.len()
    &&& forall|j: int| 0 <= j < k ==> #[trigger] one.yuvs[j] == other.yuvs[j]
}

/// Under a deterministic codec, two runs agree in frame `k` if their GOPs agree
/// so far.
proof fn lemma_same_run_again<E: FrameEncoder>(
    codec: &E,
    one: GopInput<E>,
    other: GopInput<E>,
    inter_cfg: E::InterConfig,
    a: Seq<CodedFrame<E>>,
    b: Seq<CodedFrame<E>>,
    k: int,
)
    requires
        is_deterministic(codec),
        same_up_to(one, other, k + 1),
        is_run(codec, one, inter_cfg, a),
        is_run(codec, other, inter_cfg, b),
        0 <= k < a.len(),
        k < b.len(),
    ensures
        same_frame(a[k], b[k]),
    decreases k,
{
    if k > 0 {
        lemma_same_run_again(codec, one, other, inter_cfg, a, b, k - 1);
    }
    assert(frame_follows(codec, one, inter_cfg, a, k));
    assert(frame_follows(codec, other, inter_cfg, b, k));
    assert(one.yuvs[k] == other.yuvs[k]);
    lemma_same_frame_again(codec, one, inter_cfg, left_before(a, k), k, a[k], b[k]);
}

/// A run over the first pictures of the GOP gives `results`.
pub open spec fn gop_begun<E: FrameEncoder>(
    codec: &E,
    input: GopInput<E>,
    results: Seq<(Vec<u8>, E::Recording)>,
) -> bool {
    exists|inter_cfg: E::InterConfig, trace: Seq<CodedFrame<E>>|
        {
            &&& #[trigger] is_run(codec, input, inter_cfg, trace)
            &&& results == outputs(trace)
        }
}

/// Results come frame by frame: the first `k` results of a GOP are those of a run
/// over its first `k` pictures.
pub proof fn law_results_come_frame_by_frame<E: FrameEncoder>(
    codec: &E,
    input: GopInput<E>,
    results: Seq<(Vec<u8>, E::Recording)>,
    k: int,
)
    requires
        gop_encoded(codec, input, results),
        0 <= k <= results.len(),
    ensures
        gop_begun(codec, input, results.take(k)),
{
    let (inter_cfg, trace) = lemma_run_behind_results(codec, input, results);
    let begun = trace.take(k);
    assert forall|j: int| 0 <= j < begun.len() implies #[trigger] frame_follows(
        codec,
        input,
        inter_cfg,
        begun,
        j,
    ) by {
        assert(frame_follows(codec, input, inter_cfg, trace, j));
    }
    assert(is_run(codec, input, inter_cfg, begun));
    assert(results.take(k) =~= outputs(begun));
}

/// Later pictures are never read, whatever the codec: GOPs that agree in their
/// first `k` pictures can begin with the same `k` results or fewer, and with no
/// others.
pub proof fn law_later_pictures_are_not_read<E: FrameEncoder>(
    codec: &E,
    one: GopInput<E>,
    other: GopInput<E>,
    k: int,
    results: Seq<(Vec<u8>, E::Recording)>,
)
    requires
        same_up_to(one, other, k),
        results.len() <= k,
    ensures
        gop_begun(codec, one, results) <==> gop_begun(codec, other, results),
{
    lemma_begun_alike(codec, one, other, k, results);
    lemma_begun_alike(codec, other, one, k, results);
}

/// What one of two GOPs begins with, the other begins with too, as far as their
/// pictures agree.
proof fn lemma_begun_alike<E: FrameEncoder>(
    codec: &E,
    one: GopInput<E>,
    other: GopInput<E>,
    k: int,
    results: Seq<(Vec<u8>, E::Recording)>,
)
    requires
        same_up_to(one, other, k),
        results.len() <= k,
    ensures
        gop_begun(codec, one, results) ==> gop_begun(codec, other, results),
{
    assert forall|inter_cfg: E::InterConfig, trace: Seq<CodedFrame<E>>| #[trigger]
        is_run(codec, one, inter_cfg, trace) && trace.len() <= k implies is_run(
        codec,
        other,
        inter_cfg,
        trace,
    ) by {
        assert forall|j: int| 0 <= j < trace.len() implies #[trigger] frame_follows(
            codec,
            other,
            inter_cfg,
            trace,
            j,
        ) by {
            assert(frame_follows(codec, one, inter_cfg, trace, j));
            assert(one.yuvs[j] == other.yuvs[j]);
        }
    }
}

/// The lookahead is never asked about the key frame: with a codec whose key
/// frames are of that type, a GOP can begin with the same first result with the
/// lookahead on as with it off.
pub proof fn law_key_frame_needs_no_lookahead<E: FrameEncoder>(
    codec: &E,
    input: GopInput<E>,
    result: (Vec<u8>, E::Recording),
)
    requires
        forall|fi: FrameInvariants<E>| #[trigger]
            key_frame_built(codec, input, fi) ==> fi.frame_type == FrameType::KEY,
    ensures
        gop_begun(codec, GopInput { lookahead: true, ..input }, seq![result]) <==> gop_begun(
            codec,
            GopInput { lookahead: false, ..input },
            seq![result],
        ),
{
    let on = GopInput::<E> { lookahead: true, ..input };
    let off = GopInput::<E> { lookahead: false, ..input };
    assert forall|inter_cfg: E::InterConfig, trace: Seq<CodedFrame<E>>|
        trace.len() == 1 implies #[trigger] is_run(codec, on, inter_cfg, trace) == is_run(
        codec,
        off,
        inter_cfg,
        trace,
    ) by {
        lemma_lookahead_is_no_concern_of_preparation(codec, input, inter_cfg, trace, 0);
        assert(key_frame_built(codec, on, trace[0].built) == key_frame_built(
            codec,
            input,
            trace[0].built,
        ));
        assert(key_frame_built(codec, off, trace[0].built) == key_frame_built(
            codec,
            input,
            trace[0].built,
        ));
        if is_run(codec, on, inter_cfg, trace) || is_run(codec, off, inter_cfg, trace) {
            assert(frame_follows(codec, on, inter_cfg, trace, 0) || frame_follows(
                codec,
                off,
                inter_cfg,
                trace,
                0,
            ));
            assert(trace[0].fi.frame_type == FrameType::KEY);
            law_lookahead_passes_key_frames_by(codec, input, inter_cfg, trace);
        }
    }
    if gop_begun(codec, on, seq![result]) {
        let (inter_cfg, trace) = lemma_run_behind_beginning(codec, on, seq![result]);
        assert(is_run(codec, off, inter_cfg, trace));
    }
    if gop_begun(codec, off, seq![result]) {
        let (inter_cfg, trace) = lemma_run_behind_beginning(codec, off, seq![result]);
        assert(is_run(codec, on, inter_cfg, trace));
    }
}

/// Later pictures make no difference: under a deterministic codec, the packet
/// and the recording of a frame depend on its own picture and the earlier ones.
pub proof fn law_later_pictures_make_no_difference<E: FrameEncoder>(
    codec: &E,
    one: GopInput<E>,
    other: GopInput<E>,
    k: int,
    ra: Seq<(Vec<u8>, E::Recording)>,
    rb: Seq<(Vec<u8>, E::Recording)>,
)
    requires
        is_deterministic(codec),
        0 <= k <= one.yuvs.len(),
        same_up_to(one, other, k),
        gop_encoded(codec, one, ra),
        gop_encoded(codec, other, rb),
    ensures
        ra.len() == rb.len(),
        forall|j: int| 0 <= j < k ==> same_result::<E>(#[trigger] ra[j], rb[j]),
{
    let (cfg_a, a) = lemma_run_behind_results(codec, one, ra);
    let (cfg_b, b) = lemma_run_behind_results(codec, other, rb);
    assert(cfg_a == cfg_b);
    assert forall|j: int| 0 <= j < k implies same_result::<E>(#[trigger] ra[j], rb[j]) by {
        lemma_same_run_again(codec, one, other, cfg_a, a, b, j);
    }
}

/// A GOP can be encoded again, byte for byte: under a deterministic codec, the
/// same pictures and settings always give the same packets and recordings.
pub proof fn law_replay_gives_the_same_results<E: FrameEncoder>(
    codec: &E,
    input: GopInput<E>,
    results: Seq<(Vec<u8>, E::Recording)>,
    again: Seq<(Vec<u8>, E::Recording)>,
)
    requires
        is_deterministic(codec),
        gop_encoded(codec, input, results),
        gop_encoded(codec, input, again),
    ensures
        same_results::<E>(results, again),
{
    let len = input.yuvs.len() as int;
    law_later_pictures_make_no_difference(codec, input, input, len, results, again);
    law_output_order_is_input_order(codec, input, results);
}

/// Under a deterministic codec, a GOP that is refused once is never encoded, and
/// is always refused at the same frame.
pub proof fn law_replay_is_refused_alike<E: FrameEncoder>(
    codec: &E,
    input: GopInput<E>,
    k: int,
    results: Seq<(Vec<u8>, E::Recording)>,
    other: int,
)
    requires
        is_deterministic(codec),
        gop_refused(codec, input, k),
    ensures
        !gop_encoded(codec, input, results),
        gop_refused(codec, input, other) ==> other == k,
{
    let (cfg_a, a) = lemma_run_behind_refusal(codec, input, k);
    if gop_encoded(codec, input, results) {
        let (cfg_b, b) = lemma_run_behind_results(codec, input, results);
        lemma_no_run_past_a_refusal(codec, input, cfg_a, a, cfg_b, b);
    }
    if gop_refused(codec, input, other) {
        let (cfg_b, b) = lemma_run_behind_refusal(codec, input, other);
        lemma_no_run_past_a_refusal(codec, input, cfg_a, a, cfg_b, b);
        lemma_no_run_past_a_refusal(codec, input, cfg_b, b, cfg_a, a);
    }
}

/// Under a deterministic codec, no run goes further than one that was refused.
proof fn lemma_no_run_past_a_refusal<E: FrameEncoder>(
    codec: &E,
    input: GopInput<E>,
    cfg_a: E::InterConfig,
    a: Seq<CodedFrame<E>>,
    cfg_b: E::InterConfig,
    b: Seq<CodedFrame<E>>,
)
    requires
        is_deterministic(codec),
        is_run(codec, input, cfg_a, a),
        is_run(codec, input, cfg_b, b),
        0 < a.len(),
        inter_frame_built(codec, input, cfg_a, a[a.len() - 1].closed, a.len() as int, None),
    ensures
        b.len() <= a.len(),
{
    let k = a.len() as int;
    if k < b.len() {
        assert(cfg_a == cfg_b);
        lemma_same_run_again(codec, input, input, cfg_a, a, b, k - 1);
        assert(frame_follows(codec, input, cfg_b, b, k));
        assert(inter_frame_built(codec, input, cfg_a, a[k - 1].closed, k, Some(b[k].built)));
        lemma_empty_lists_agree::<E::T35>();
    }
}

/// The key frame does not depend on the lookahead: under a deterministic codec
/// whose key frames are of that type, the first packet and recording are the
/// same with the lookahead on as with it off.
pub proof fn law_key_frame_is_the_same_without_lookahead<E: FrameEncoder>(
    codec: &E,
    input: GopInput<E>,
    on: Seq<(Vec<u8>, E::Recording)>,
    off: Seq<(Vec<u8>, E::Recording)>,
)
    requires
        is_deterministic(codec),
        input.yuvs.len() > 0,
        forall|fi: FrameInvariants<E>| #[trigger]
            key_frame_built(codec, input, fi) ==> fi.frame_type == FrameType::KEY,
        gop_encoded(codec, GopInput { lookahead: true, ..input }, on),
        gop_encoded(codec, GopInput { lookahead: false, ..input }, off),
    ensures
        on.len() == off.len(),
        same_result::<E>(on[0], off[0]),
{
    let input_on = GopInput::<E> { lookahead: true, ..input };
    let input_off = GopInput::<E> { lookahead: false, ..input };
    let (cfg_on, a) = lemma_run_behind_results(codec, input_on, on);
    let (cfg_off, b) = lemma_run_behind_results(codec, input_off, off);
    assert(cfg_on == cfg_off);
    assert(frame_follows(codec, input_on, cfg_on, a, 0));
    assert(frame_follows(codec, input_off, cfg_on, b, 0));
    lemma_lookahead_is_no_concern_of_preparation(codec, input, cfg_on, a, 0);
    assert(key_frame_built(codec, input, a[0].built));
    lemma_same_frame_again(codec, input_off, cfg_on, None, 0, a[0], b[0]);
}

/// The knob switches the lookahead on if it is set to the text of a number from 1
/// to 255, and only then.
pub proof fn law_knob_is_a_number_in_eight_bits(text: Seq<char>)
    ensures
        !knob_enables(None),
        unsigned_value(text) is None ==> !knob_enables(Some(text)),
        unsigned_value(text) matches Some(n) ==> (knob_enables(Some(text)) <==> 1 <= n <= 255),
{
}

/// A knob that is not set, or whose text is zero or no number that fits in eight
/// bits, gives what a driver without a lookahead gives. Under a deterministic
/// codec, all such knobs give the same.
pub proof fn law_knobs_that_are_off_agree<E: FrameEncoder>(
    codec: &E,
    input: GopInput<E>,
    knob: Option<Seq<char>>,
    other_knob: Option<Seq<char>>,
    results: Seq<(Vec<u8>, E::Recording)>,
    other_results: Seq<(Vec<u8>, E::Recording)>,
)
    requires
        !knob_enables(knob),
        !knob_enables(other_knob),
        gop_encoded(codec, GopInput { lookahead: knob_enables(knob), ..input }, results),
        gop_encoded(
            codec,
            GopInput { lookahead: knob_enables(other_knob), ..input },
            other_results,
        ),
    ensures
        gop_plainly_encoded(codec, GopInput { lookahead: false, ..input }, results),
        is_deterministic(codec) ==> same_results::<E>(results, other_results),
{
    let off = GopInput::<E> { lookahead: false, ..input };
    law_lookahead_off_is_no_lookahead(codec, off, results);
    if is_deterministic(codec) {
        law_replay_gives_the_same_results(codec, off, results, other_results);
    }
}

/// A frame is refined on its own exactly as in a window of one frame.
pub proof fn law_one_frame_is_a_window_of_one<E: FrameEncoder>(
    codec: &E,
    inter_cfg: E::InterConfig,
    before: LookaheadWindowFrame<E>,
    after: LookaheadWindowFrame<E>,
)
    requires
        after.yuv == before.yuv,
        after.output_frameno == before.output_frameno,
    ensures
        window_refined(codec, inter_cfg, seq![before], seq![after]) <==> one_frame_refined(
            codec,
            inter_cfg,
            before.fi,
            before.fs,
            after.fi,
            after.fs,
        ),
{
    let windows = (seq![before], seq![after]);
    if window_refined(codec, inter_cfg, windows.0, windows.1) {
        assert(window_frame_refined(codec, inter_cfg, windows.0[0], windows.1[0]));
    }
    if one_frame_refined(codec, inter_cfg, before.fi, before.fs, after.fi, after.fs) {
        assert(window_frame_refined(codec, inter_cfg, before, after));
    }
}

/// With deterministic motion estimation, a frame refined on its own ends as the
/// only frame of a window does.
pub proof fn law_one_frame_ends_as_in_a_window<E: FrameEncoder>(
    codec: &E,
    inter_cfg: E::InterConfig,
    before: LookaheadWindowFrame<E>,
    window: Seq<LookaheadWindowFrame<E>>,
    refined_fi: FrameInvariants<E>,
    refined_fs: FrameState<E>,
)
    requires
        motion_is_deterministic(codec),
        window_refined(codec, inter_cfg, seq![before], window),
        one_frame_refined(codec, inter_cfg, before.fi, before.fs, refined_fi, refined_fs),
    ensures
        window.len() == 1,
        refined_fi == window[0].fi,
        refined_fs == window[0].fs,
{
    assert(window_frame_refined(codec, inter_cfg, seq![before][0], window[0]));
}

/// With deterministic motion estimation, a frame that is refined on its own
/// again ends in the same way. What is left free has no influence: its number
/// in the GOP, its source picture and the bit depth.
pub proof fn law_one_frame_ends_alike<E: FrameEncoder>(
    codec: &E,
    inter_cfg: E::InterConfig,
    fi: FrameInvariants<E>,
    fs: FrameState<E>,
    one: (FrameInvariants<E>, FrameState<E>),
    other: (FrameInvariants<E>, FrameState<E>),
)
    requires
        motion_is_deterministic(codec),
        one_frame_refined(codec, inter_cfg, fi, fs, one.0, one.1),
        one_frame_refined(codec, inter_cfg, fi, fs, other.0, other.1),
    ensures
        one == other,
{
}

/// A window is refined part by part: each frame goes its way whatever its
/// neighbours and its place are.
pub proof fn law_window_is_refined_part_by_part<E: FrameEncoder>(
    codec: &E,
    inter_cfg: E::InterConfig,
    a: Seq<LookaheadWindowFrame<E>>,
    b: Seq<LookaheadWindowFrame<E>>,
    refined_a: Seq<LookaheadWindowFrame<E>>,
    refined_b: Seq<LookaheadWindowFrame<E>>,
)
    requires
        refined_a.len() == a.len(),
    ensures
        window_refined(codec, inter_cfg, a + b, refined_a + refined_b) <==> {
            &&& window_refined(codec, inter_cfg, a, refined_a)
            &&& window_refined(codec, inter_cfg, b, refined_b)
        },
{
    let before = a + b;
    let after = refined_a + refined_b;
    if window_refined(codec, inter_cfg, before, after) {
        assert forall|k: int| 0 <= k < a.len() implies window_frame_refined(
            codec,
            inter_cfg,
            a[k],
            #[trigger] refined_a[k],
        ) by {
            assert(window_frame_refined(codec, inter_cfg, before[k], after[k]));
        }
        assert forall|k: int| 0 <= k < b.len() implies window_frame_refined(
            codec,
            inter_cfg,
            b[k],
            #[trigger] refined_b[k],
        ) by {
            let at = a.len() + k;
            assert(window_frame_refined(codec, inter_cfg, before[at], after[at]));
        }
    }
}

/// With deterministic motion estimation, refining a window gives what refining
/// its two parts gives, one after the other.
pub proof fn law_window_is_the_sum_of_its_parts<E: FrameEncoder>(
    codec: &E,
    inter_cfg: E::InterConfig,
    a: Seq<LookaheadWindowFrame<E>>,
    b: Seq<LookaheadWindowFrame<E>>,
    whole: Seq<LookaheadWindowFrame<E>>,
    refined_a: Seq<LookaheadWindowFrame<E>>,
    refined_b: Seq<LookaheadWindowFrame<E>>,
)
    requires
        motion_is_deterministic(codec),
        window_refined(codec, inter_cfg, a + b, whole),
        window_refined(codec, inter_cfg, a, refined_a),
        window_refined(codec, inter_cfg, b, refined_b),
    ensures
        whole == refined_a + refined_b,
{
    let parts = refined_a + refined_b;
    law_window_is_refined_part_by_part(codec, inter_cfg, a, b, refined_a, refined_b);
    assert forall|k: int| 0 <= k < whole.len() implies whole[k] == parts[k] by {
        assert(window_frame_refined(codec, inter_cfg, (a + b)[k], whole[k]));
        assert(window_frame_refined(codec, inter_cfg, (a + b)[k], parts[k]));
    }
    assert(whole =~= parts);
}

/// Frame numbers are never read, whatever the codec: a window that is numbered
/// otherwise can be refined in the same way. The bit depth has no part in a
/// refinement at all.
pub proof fn law_frame_numbers_are_not_read<E: FrameEncoder>(
    codec: &E,
    inter_cfg: E::InterConfig,
    window: Seq<LookaheadWindowFrame<E>>,
    refined: Seq<LookaheadWindowFrame<E>>,
    numbers: Seq<u64>,
)
    requires
        numbers.len() == window.len(),
        refined.len() == window.len(),
        forall|k: int|
            0 <= k < window.len() ==> (#[trigger] refined[k]).output_frameno
                == window[k].output_frameno,
    ensures
        window_refined(codec, inter_cfg, window, refined) <==> window_refined(
            codec,
            inter_cfg,
            renumbered(window, numbers),
            renumbered(refined, numbers),
        ),
{
    let other = renumbered(window, numbers);
    let refined_other = renumbered(refined, numbers);
    assert forall|k: int| 0 <= k < window.len() implies window_frame_refined(
        codec,
        inter_cfg,
        window[k],
        #[trigger] refined[k],
    ) == window_frame_refined(codec, inter_cfg, other[k], refined_other[k]) by {
        let number = window[k].output_frameno;
        assert(refined[k] == (LookaheadWindowFrame::<E> {
            output_frameno: number,
            ..refined_other[k]
        }));
        assert(window[k] == (LookaheadWindowFrame::<E> { output_frameno: number, ..other[k] }));
    }
    if window_refined(codec, inter_cfg, other, refined_other) {
        assert forall|k: int| 0 <= k < window.len() implies window_frame_refined(
            codec,
            inter_cfg,
            window[k],
            #[trigger] refined[k],
        ) by {
            assert(window_frame_refined(codec, inter_cfg, other[k], refined_other[k]));
        }
    }
    if window_refined(codec, inter_cfg, window, refined) {
        assert forall|k: int| 0 <= k < other.len() implies window_frame_refined(
            codec,
            inter_cfg,
            other[k],
            #[trigger] refined_other[k],
        ) by {
            assert(window_frame_refined(codec, inter_cfg, window[k], refined[k]));
        }
    }
}

/// The window with its frames numbered otherwise.
pub open spec fn renumbered<E: FrameEncoder>(
    window: Seq<LookaheadWindowFrame<E>>,
    numbers: Seq<u64>,
) -> Seq<LookaheadWindowFrame<E>> {
    Seq::new(
        window.len(),
        |k: int| LookaheadWindowFrame::<E> { output_frameno: numbers[k], ..window[k] },
    )
}

/// With deterministic motion estimation, the invariants and states of a window
/// end up the same whatever the frames are numbered. The bit depth has no part
/// in a refinement at all.
pub proof fn law_frame_numbers_make_no_difference<E: FrameEncoder>(
    codec: &E,
    inter_cfg: E::InterConfig,
    one: Seq<LookaheadWindowFrame<E>>,
    other: Seq<LookaheadWindowFrame<E>>,
    refined_one: Seq<LookaheadWindowFrame<E>>,
    refined_other: Seq<LookaheadWindowFrame<E>>,
)
    requires
        motion_is_deterministic(codec),
        one.len() == other.len(),
        forall|k: int|
            0 <= k < one.len() ==> (#[trigger] one[k]).fi == other[k].fi && one[k].fs
                == other[k].fs,
        window_refined(codec, inter_cfg, one, refined_one),
        window_refined(codec, inter_cfg, other, refined_other),
    ensures
        refined_one.len() == refined_other.len(),
        forall|k: int|
            0 <= k < refined_one.len() ==> (#[trigger] refined_one[k]).fi == refined_other[k].fi
                && refined_one[k].fs == refined_other[k].fs,
{
    assert forall|k: int| 0 <= k < refined_one.len() implies (#[trigger] refined_one[k]).fi
        == refined_other[k].fi && refined_one[k].fs == refined_other[k].fs by {
        assert(one[k].fi == other[k].fi && one[k].fs == other[k].fs);
        assert(window_frame_refined(codec, inter_cfg, one[k], refined_one[k]));
        assert(window_frame_refined(codec, inter_cfg, other[k], refined_other[k]));
    }
}

} // verus!

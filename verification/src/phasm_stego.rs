//! Encoding of a group of pictures, with everything that was recorded on the way.
use crate::encoder::{
    ChromaSampling, EncoderConfig, FrameEncoder, FrameInvariants, FrameState, FrameType, Sequence,
};
use crate::phasm_stego_lookahead::{
    compute_distortion_scales_for_window, state_refined, LookaheadWindowFrame,
};
use crate::text::{parse_unsigned, unsigned_value};
use std::sync::Arc;
use vstd::prelude::*;

verus! {

/// Why a GOP could not be encoded.
#[derive(Clone, Copy, Debug, PartialEq, Eq, Structural)]
pub enum GopError {
    /// The codec has no inter frame for this place in the GOP.
    NoInterFrame {
        /// Index of the frame in the GOP.
        output_frameno: u64,
    },
}

/// What a GOP is made from.
pub struct GopInput<E: FrameEncoder> {
    /// The source pictures, in display order.
    pub yuvs: Seq<Arc<E::Frame>>,
    /// Settings of the encoder.
    pub config: Arc<EncoderConfig<E::Settings>>,
    /// Sequence that the GOP belongs to.
    pub sequence: Arc<Sequence<E::SequenceHeader>>,
    /// Whether each frame is refined before it is encoded.
    pub lookahead: bool,
}

/// The GOP of the given pictures and settings.
pub open spec fn gop_input<E: FrameEncoder>(
    yuvs: Seq<Arc<E::Frame>>,
    config: Arc<EncoderConfig<E::Settings>>,
    sequence: Arc<Sequence<E::SequenceHeader>>,
    lookahead: bool,
) -> GopInput<E> {
    GopInput { yuvs, config, sequence, lookahead }
}

/// One frame on its way through the driver.
pub struct CodedFrame<E: FrameEncoder> {
    /// The invariants as the codec made them.
    pub built: FrameInvariants<E>,
    /// The invariants that the frame is encoded with.
    pub fi: FrameInvariants<E>,
    /// The state as the codec made it.
    pub initial: FrameState<E>,
    /// The state in which encoding starts.
    pub refined: FrameState<E>,
    /// The state after encoding.
    pub coded: FrameState<E>,
    /// The bytes of the packet.
    pub packet: Vec<u8>,
    /// What was recorded while they were written.
    pub recording: E::Recording,
    /// The state with the reconstruction padded.
    pub padded: FrameState<E>,
    /// The invariants with the reconstruction among the references, which the
    /// next frame builds on.
    pub closed: FrameInvariants<E>,
}

/// The codec made `fi` as the key frame that starts the GOP.
pub open spec fn key_frame_built<E: FrameEncoder>(
    codec: &E,
    input: GopInput<E>,
    fi: FrameInvariants<E>,
) -> bool {
    exists|t35: Vec<E::T35>|
        {
            &&& t35@.len() == 0
            &&& #[trigger] call_ensures(
                E::new_key_frame,
                (
                    codec,
                    Arc::new(input.config.low_latency_variant()),
                    input.sequence,
                    0u64,
                    t35,
                ),
                fi,
            )
        }
}

/// The codec answered `reply` when asked for inter frame `k` of the GOP, after a
/// frame that left `previous`.
pub open spec fn inter_frame_built<E: FrameEncoder>(
    codec: &E,
    input: GopInput<E>,
    inter_cfg: E::InterConfig,
    previous: FrameInvariants<E>,
    k: int,
    reply: Option<FrameInvariants<E>>,
) -> bool {
    exists|t35: Vec<E::T35>|
        {
            &&& t35@.len() == 0
            &&& #[trigger] call_ensures(
                E::new_inter_frame,
                (
                    codec,
                    &previous,
                    &inter_cfg,
                    0u64,
                    k as u64,
                    input.yuvs.len() as u64,
                    false,
                    t35,
                ),
                reply,
            )
        }
}

/// `fi` is the inter frame `built`, unsegmented and with the references of `previous`.
pub open spec fn references_linked<E: FrameEncoder>(
    codec: &E,
    previous: FrameInvariants<E>,
    built: FrameInvariants<E>,
    fi: FrameInvariants<E>,
) -> bool {
    let linked = FrameInvariants::<E> {
        enable_segmentation: false,
        rec_buffer: previous.rec_buffer,
        ..built
    };
    &&& call_ensures(E::ref_frame_sign_bias, (codec, &linked), fi.ref_frame_sign_bias)
    &&& fi == (FrameInvariants::<E> { ref_frame_sign_bias: fi.ref_frame_sign_bias, ..linked })
}

/// `frame` got its invariants as frame `k` of the GOP, after the frame that left
/// `previous`, if there is one.
pub open spec fn frame_prepared<E: FrameEncoder>(
    codec: &E,
    input: GopInput<E>,
    inter_cfg: E::InterConfig,
    previous: Option<FrameInvariants<E>>,
    k: int,
    frame: CodedFrame<E>,
) -> bool {
    match previous {
        None => {
            &&& key_frame_built(codec, input, frame.built)
            &&& frame.fi == (FrameInvariants::<E> { enable_segmentation: false, ..frame.built })
        },
        Some(previous) => {
            &&& inter_frame_built(codec, input, inter_cfg, previous, k, Some(frame.built))
            &&& references_linked(codec, previous, frame.built, frame.fi)
        },
    }
}

/// Number of planes of a picture.
pub open spec fn plane_count(chroma_sampling: ChromaSampling) -> nat {
    if chroma_sampling == ChromaSampling::Cs400 {
        1
    } else {
        3
    }
}

/// The reconstruction in `fs` is padded, which gives `padded`, and is stored
/// among the references, which gives `closed`.
pub open spec fn reference_updated<E: FrameEncoder>(
    codec: &E,
    output_frameno: u64,
    fi: FrameInvariants<E>,
    fs: FrameState<E>,
    padded: FrameState<E>,
    closed: FrameInvariants<E>,
) -> bool {
    &&& call_ensures(
        E::pad,
        (
            codec,
            &*fs.rec,
            fi.width,
            fi.height,
            plane_count(fi.sequence.chroma_sampling) as usize,
        ),
        *padded.rec,
    )
    &&& padded == (FrameState::<E> { rec: padded.rec, ..fs })
    &&& call_ensures(
        E::update_rec_buffer,
        (codec, output_frameno, &fi, &padded),
        closed.rec_buffer,
    )
    &&& closed == (FrameInvariants::<E> { rec_buffer: closed.rec_buffer, ..fi })
}

/// `frame` was encoded from picture `k` of the GOP with the invariants that it has.
pub open spec fn frame_encoded<E: FrameEncoder>(
    codec: &E,
    input: GopInput<E>,
    inter_cfg: E::InterConfig,
    k: int,
    frame: CodedFrame<E>,
) -> bool {
    &&& call_ensures(E::new_frame_state, (codec, &frame.fi, input.yuvs[k]), frame.initial)
    &&& if input.lookahead {
        state_refined(codec, inter_cfg, frame.fi, frame.initial, frame.refined)
    } else {
        frame.refined == frame.initial
    }
    &&& call_ensures(
        E::encode_frame_with_phasm_tee,
        (codec, &frame.fi, frame.refined, &inter_cfg),
        (frame.coded, frame.packet, frame.recording),
    )
    &&& reference_updated(codec, k as u64, frame.fi, frame.coded, frame.padded, frame.closed)
}

/// What the frame before frame `k` left to it.
pub open spec fn left_before<E: FrameEncoder>(trace: Seq<CodedFrame<E>>, k: int) -> Option<
    FrameInvariants<E>,
> {
    if k == 0 {
        None
    } else {
        Some(trace[k - 1].closed)
    }
}

/// Frame `k` of `trace` went through the driver after those before it.
pub open spec fn frame_follows<E: FrameEncoder>(
    codec: &E,
    input: GopInput<E>,
    inter_cfg: E::InterConfig,
    trace: Seq<CodedFrame<E>>,
    k: int,
) -> bool {
    &&& frame_prepared(codec, input, inter_cfg, left_before(trace, k), k, trace[k])
    &&& frame_encoded(codec, input, inter_cfg, k, trace[k])
}

/// `trace` is a run of the driver over the first pictures of the GOP.
pub open spec fn is_run<E: FrameEncoder>(
    codec: &E,
    input: GopInput<E>,
    inter_cfg: E::InterConfig,
    trace: Seq<CodedFrame<E>>,
) -> bool {
    &&& call_ensures(
        E::new_inter_config,
        (codec, &input.config.low_latency_variant()),
        inter_cfg,
    )
    &&& trace.len() <= input.yuvs.len()
    &&& forall|k: int|
        0 <= k < trace.len() ==> #[trigger] frame_follows(codec, input, inter_cfg, trace, k)
}

/// The packet and the recording of each frame of `trace`, in its order.
pub open spec fn outputs<E: FrameEncoder>(trace: Seq<CodedFrame<E>>) -> Seq<
    (Vec<u8>, E::Recording),
> {
    Seq::new(trace.len(), |k: int| (trace[k].packet, trace[k].recording))
}

/// A run over all pictures of the GOP gives `results`.
pub open spec fn gop_encoded<E: FrameEncoder>(
    codec: &E,
    input: GopInput<E>,
    results: Seq<(Vec<u8>, E::Recording)>,
) -> bool {
    exists|inter_cfg: E::InterConfig, trace: Seq<CodedFrame<E>>|
        {
            &&& #[trigger] is_run(codec, input, inter_cfg, trace)
            &&& trace.len() == input.yuvs.len()
            &&& results == outputs(trace)
        }
}

/// A run reaches frame `k` of the GOP, for which the codec has no inter frame.
pub open spec fn gop_refused<E: FrameEncoder>(codec: &E, input: GopInput<E>, k: int) -> bool {
    exists|inter_cfg: E::InterConfig, trace: Seq<CodedFrame<E>>|
        {
            &&& #[trigger] is_run(codec, input, inter_cfg, trace)
            &&& 0 < k == trace.len() < input.yuvs.len()
            &&& inter_frame_built(codec, input, inter_cfg, trace[k - 1].closed, k, None)
        }
}

/// How inter frames refer to each other under the given settings.
pub fn make_inter_config<E: FrameEncoder>(
    codec: &E,
    enc_config: &EncoderConfig<E::Settings>,
) -> (inter_cfg: E::InterConfig)
    ensures
        call_ensures(E::new_inter_config, (codec, enc_config), inter_cfg),
{
    codec.new_inter_config(enc_config)
}

/// A picture of the given size, with the default padding.
pub fn make_frame<E: FrameEncoder>(
    codec: &E,
    width: usize,
    height: usize,
    chroma_sampling: ChromaSampling,
) -> (frame: E::Frame)
    ensures
        call_ensures(E::new_frame, (codec, width, height, chroma_sampling), frame),
{
    codec.new_frame(width, height, chroma_sampling)
}

/// `knob` switches the lookahead on: it is there, and is the decimal text of a
/// number other than zero that fits in eight bits.
pub open spec fn knob_enables(knob: Option<Seq<char>>) -> bool {
    knob matches Some(text) && unsigned_value(text) matches Some(n) && 0 < n <= u8::MAX
}

/// Whether `knob` switches the lookahead on.
pub fn lookahead_enabled(knob: Option<&str>) -> (enabled: bool)
    ensures
        enabled == knob_enables(
            match knob {
                Some(text) => Some(text@),
                None => None,
            },
        ),
{
    match knob {
        Some(s) => match parse_unsigned(s, 255) {
            Some(n) => n != 0,
            None => false,
        },
        None => false,
    }
}

/// Refining a frame on its own makes `fi` and `fs` into `refined_fi` and
/// `refined_fs`.
pub open spec fn one_frame_refined<E: FrameEncoder>(
    codec: &E,
    inter_cfg: E::InterConfig,
    fi: FrameInvariants<E>,
    fs: FrameState<E>,
    refined_fi: FrameInvariants<E>,
    refined_fs: FrameState<E>,
) -> bool {
    &&& refined_fi == fi
    &&& state_refined(codec, inter_cfg, fi, fs, refined_fs)
}

/// Refines one frame before it is encoded: it moves into a window of its own,
/// and out of it again.
pub fn run_one_frame_lookahead<E: FrameEncoder>(
    codec: &E,
    fi: FrameInvariants<E>,
    fs: FrameState<E>,
    yuv: Arc<E::Frame>,
    output_frameno: u64,
    inter_cfg: &E::InterConfig,
    bit_depth: usize,
) -> (refined: (FrameInvariants<E>, FrameState<E>))
    ensures
        one_frame_refined(codec, *inter_cfg, fi, fs, refined.0, refined.1),
        refined.0 == fi,
        fi.frame_type != FrameType::KEY ==> call_ensures(
            E::compute_motion_vectors,
            (codec, &fi, &fs, inter_cfg),
            refined.1.frame_me_stats,
        ),
        fi.frame_type == FrameType::KEY ==> refined.1 == fs,
{
    let frame = LookaheadWindowFrame::<E> { fi, fs, yuv, output_frameno };
    let mut window = vec![frame];
    compute_distortion_scales_for_window(codec, window.as_mut_slice(), inter_cfg, bit_depth);
    let frame = window.pop().unwrap();
    (frame.fi, frame.fs)
}

/// Makes the reconstruction of an encoded frame a reference for the next one.
///
/// The reconstruction is padded in a copy. Whoever shares it, as a recording
/// may, keeps it without the padding.
pub fn pad_and_update_ref<E: FrameEncoder>(
    codec: &E,
    fi: &mut FrameInvariants<E>,
    fs: &mut FrameState<E>,
    output_frameno: u64,
)
    ensures
        reference_updated(codec, output_frameno, *old(fi), *old(fs), *final(fs), *final(fi)),
        call_ensures(
            E::pad,
            (
                codec,
                &*old(fs).rec,
                old(fi).width,
                old(fi).height,
                if old(fi).sequence.chroma_sampling is Cs400 {
                    1usize
                } else {
                    3usize
                },
            ),
            *final(fs).rec,
        ),
        call_ensures(
            E::update_rec_buffer,
            (codec, output_frameno, old(fi), final(fs)),
            final(fi).rec_buffer,
        ),
{
    let planes: usize = if fi.sequence.chroma_sampling == ChromaSampling::Cs400 {
        1
    } else {
        3
    };
    let padded = codec.pad(&fs.rec, fi.width, fi.height, planes);
    fs.rec = Arc::new(padded);
    fi.rec_buffer = codec.update_rec_buffer(output_frameno, &*fi, &*fs);
}

/// Encodes one frame whose invariants are settled, and makes its reconstruction
/// a reference for the next one: the packet, the recording, and the invariants
/// that the next frame builds on.
fn encode_prepared_frame<E: FrameEncoder>(
    codec: &E,
    fi: FrameInvariants<E>,
    yuv: &Arc<E::Frame>,
    output_frameno: u64,
    inter_cfg: &E::InterConfig,
    bit_depth: usize,
    lookahead: bool,
    Ghost(input): Ghost<GopInput<E>>,
    Ghost(built): Ghost<FrameInvariants<E>>,
) -> (encoded: (Vec<u8>, E::Recording, FrameInvariants<E>, Ghost<CodedFrame<E>>))
    requires
        output_frameno < input.yuvs.len(),
        input.yuvs[output_frameno as int] == *yuv,
        input.lookahead == lookahead,
    ensures
        encoded.0 == encoded.3@.packet,
        encoded.1 == encoded.3@.recording,
        encoded.2 == encoded.3@.closed,
        encoded.3@.built == built,
        encoded.3@.fi == fi,
        frame_encoded(codec, input, *inter_cfg, output_frameno as int, encoded.3@),
{
    let initial = codec.new_frame_state(&fi, Arc::clone(yuv));
    let ghost ghost_fi = fi;
    let ghost ghost_initial = initial;
    let (mut fi, refined) = if lookahead {
        run_one_frame_lookahead(
            codec,
            fi,
            initial,
            Arc::clone(yuv),
            output_frameno,
            inter_cfg,
            bit_depth,
        )
    } else {
        (fi, initial)
    };
    let ghost ghost_refined = refined;
    let (mut fs, packet, recording) = codec.encode_frame_with_phasm_tee(&fi, refined, inter_cfg);
    let ghost coded = fs;
    pad_and_update_ref(codec, &mut fi, &mut fs, output_frameno);
    let ghost frame = CodedFrame::<E> {
        built,
        fi: ghost_fi,
        initial: ghost_initial,
        refined: ghost_refined,
        coded,
        packet,
        recording,
        padded: fs,
        closed: fi,
    };
    (packet, recording, fi, Ghost(frame))
}

/// Encodes `yuvs` as one GOP: the first picture as the key frame, and each other
/// as an inter frame that refers to the reconstructions before it. Each result
/// holds the packet of a frame and what was recorded while it was written, and
/// the results are in the order of the pictures.
///
/// Frames are encoded with low latency, whatever `config` says: reordered frames
/// would have to be held back.
///
/// With `lookahead`, each frame is refined before it is encoded.
pub fn encode_gop_with_phasm_tee<E: FrameEncoder>(
    codec: &E,
    yuvs: &[Arc<E::Frame>],
    config: Arc<EncoderConfig<E::Settings>>,
    sequence: Arc<Sequence<E::SequenceHeader>>,
    lookahead: bool,
) -> (encoded: Result<Vec<(Vec<u8>, E::Recording)>, GopError>)
    requires
        yuvs@.len() > 0,
    ensures
        encoded matches Ok(results) ==> {
            &&& results@.len() == yuvs@.len()
            &&& gop_encoded(codec, gop_input(yuvs@, config, sequence, lookahead), results@)
        },
        encoded matches Err(GopError::NoInterFrame { output_frameno }) ==> {
            &&& 0 < output_frameno < yuvs@.len()
            &&& gop_refused(
                codec,
                gop_input(yuvs@, config, sequence, lookahead),
                output_frameno as int,
            )
        },
        yuvs@.len() == 1 ==> encoded is Ok,
{
    let ghost input = gop_input::<E>(yuvs@, config, sequence, lookahead);
    let low_latency_config = Arc::new(config.with_low_latency());
    let inter_cfg = make_inter_config(codec, &low_latency_config);
    let bit_depth: usize = low_latency_config.bit_depth;
    let mut results: Vec<(Vec<u8>, E::Recording)> = Vec::with_capacity(yuvs.len());
    let ghost mut trace: Seq<CodedFrame<E>> = Seq::empty();

    let no_metadata: Vec<E::T35> = Vec::new();
    let mut fi = codec.new_key_frame(low_latency_config, Arc::clone(&sequence), 0, no_metadata);
    let ghost built = fi;
    fi.enable_segmentation = false;
    let (packet, recording, mut previous, Ghost(frame)) = encode_prepared_frame(
        codec,
        fi,
        &yuvs[0],
        0,
        &inter_cfg,
        bit_depth,
        lookahead,
        Ghost(input),
        Ghost(built),
    );
    results.push((packet, recording));
    proof {
        trace = trace.push(frame);
        assert(frame_follows(codec, input, inter_cfg, trace, 0));
    }

    let next_keyframe_input_frameno: u64 = yuvs.len() as u64;
    let mut idx: usize = 1;
    while idx < yuvs.len()
        invariant
            1 <= idx <= yuvs@.len(),
            next_keyframe_input_frameno == yuvs@.len(),
            input == gop_input::<E>(yuvs@, config, sequence, lookahead),
            is_run(codec, input, inter_cfg, trace),
            trace.len() == idx,
            trace[idx - 1].closed == previous,
            results@ == outputs(trace),
        decreases yuvs@.len() - idx,
    {
        let output_frameno_in_gop: u64 = idx as u64;
        let no_metadata: Vec<E::T35> = Vec::new();
        let mut fi = match codec.new_inter_frame(
            &previous,
            &inter_cfg,
            0,
            output_frameno_in_gop,
            next_keyframe_input_frameno,
            false,
            no_metadata,
        ) {
            Some(fi) => fi,
            None => {
                return Err(GopError::NoInterFrame { output_frameno: output_frameno_in_gop });
            },
        };
        let ghost built = fi;
        fi.enable_segmentation = false;
        fi.rec_buffer = previous.rec_buffer;
        let sign_bias = codec.ref_frame_sign_bias(&fi);
        fi.ref_frame_sign_bias = sign_bias;
        let (packet, recording, closed, Ghost(frame)) = encode_prepared_frame(
            codec,
            fi,
            &yuvs[idx],
            output_frameno_in_gop,
            &inter_cfg,
            bit_depth,
            lookahead,
            Ghost(input),
            Ghost(built),
        );
        results.push((packet, recording));
        previous = closed;
        proof {
            let before = trace;
            trace = trace.push(frame);
            assert forall|k: int| 0 <= k < trace.len() implies #[trigger] frame_follows(
                codec,
                input,
                inter_cfg,
                trace,
                k,
            ) by {
                if k < before.len() {
                    assert(frame_follows(codec, input, inter_cfg, before, k));
                }
            }
            assert(results@ =~= outputs(trace));
        }
        idx += 1;
    }
    Ok(results)
}

} // verus!

//! The plain data of a frame under way, and the operations that a codec supplies.
use std::sync::Arc;
use vstd::prelude::*;

verus! {

/// Number of references that an inter frame may name.
pub const INTER_REFS_PER_FRAME: usize = 7;

/// Chroma subsampling of a sequence.
#[derive(Clone, Copy, Debug, PartialEq, Eq, Structural)]
pub enum ChromaSampling {
    /// Both dimensions are halved.
    Cs420,
    /// The width is halved.
    Cs422,
    /// No subsampling.
    Cs444,
    /// Monochrome: there are no chroma planes.
    Cs400,
}

/// Type of a frame.
#[allow(non_camel_case_types)]
#[derive(Clone, Copy, Debug, PartialEq, Eq, Structural)]
pub enum FrameType {
    /// Refers to no other frame, and starts a GOP.
    KEY,
    /// Predicted from frames that came before.
    INTER,
    /// Refers to no other frame, inside a GOP.
    INTRA_ONLY,
    /// An inter frame at which a decoder may change streams.
    SWITCH,
}

/// Settings of the encoder: those that the driver knows of, and the others.
#[derive(Debug, PartialEq, Eq)]
pub struct EncoderConfig<S> {
    /// Width of the frames in pixels.
    pub width: usize,
    /// Height of the frames in pixels.
    pub height: usize,
    /// Bits per sample.
    pub bit_depth: usize,
    /// Frames leave the encoder in the order in which they came in.
    pub low_latency: bool,
    /// The settings that only the codec looks at.
    pub settings: Arc<S>,
}

impl<S: Default> Default for EncoderConfig<S> {
    fn default() -> (config: Self)
        ensures
            config.width == 640,
            config.height == 480,
            config.bit_depth == 8,
            !config.low_latency,
            call_ensures(S::default, (), *config.settings),
    {
        EncoderConfig {
            width: 640,
            height: 480,
            bit_depth: 8,
            low_latency: false,
            settings: Arc::new(S::default()),
        }
    }
}

impl<S> EncoderConfig<S> {
    /// These settings, with low latency switched on.
    pub open spec fn low_latency_variant(self) -> EncoderConfig<S> {
        EncoderConfig { low_latency: true, ..self }
    }

    /// These settings, with low latency switched on and all others as they are.
    pub fn with_low_latency(&self) -> (config: Self)
        ensures
            config == self.low_latency_variant(),
            config.width == self.width,
            config.height == self.height,
            config.bit_depth == self.bit_depth,
            config.settings == self.settings,
            config.low_latency,
    {
        EncoderConfig {
            width: self.width,
            height: self.height,
            bit_depth: self.bit_depth,
            low_latency: true,
            settings: Arc::clone(&self.settings),
        }
    }
}

/// A sequence header: what the driver knows of it, and the rest.
#[derive(Debug, PartialEq, Eq)]
pub struct Sequence<H> {
    /// Chroma subsampling of every frame.
    pub chroma_sampling: ChromaSampling,
    /// The part that only the codec looks at.
    pub header: H,
}

/// What is settled of a frame before it is encoded.
pub struct FrameInvariants<E: FrameEncoder> {
    /// Settings of the encoder.
    pub config: Arc<EncoderConfig<E::Settings>>,
    /// Sequence that the frame belongs to.
    pub sequence: Arc<Sequence<E::SequenceHeader>>,
    /// Width of the frame in pixels.
    pub width: usize,
    /// Height of the frame in pixels.
    pub height: usize,
    /// Type of the frame.
    pub frame_type: FrameType,
    /// Whether the frame is divided into segments.
    pub enable_segmentation: bool,
    /// For each reference, whether it is shown after this frame.
    pub ref_frame_sign_bias: [bool; INTER_REFS_PER_FRAME],
    /// The reconstructed frames that may be referred to.
    pub rec_buffer: E::RecBuffer,
    /// What only the codec looks at.
    pub coded_frame_data: E::CodedFrameData,
}

/// What changes while a frame is encoded.
pub struct FrameState<E: FrameEncoder> {
    /// The reconstruction of the frame.
    pub rec: Arc<E::Frame>,
    /// Motion estimates of the frame.
    pub frame_me_stats: E::FrameMEStats,
    /// What only the codec looks at.
    pub data: E::StateData,
}

/// The operations of an AV1 codec.
///
/// An operation computes a value from what it is given. The codec never updates
/// the state of a frame: the driver does, with the values that come back. So
/// motion estimation can change the motion estimates of a frame and nothing
/// else, and likewise the sign bias and the references. Of the values themselves
/// nothing is taken for granted. The driver's contracts say which calls it makes,
/// on which arguments and in which order, and what becomes of each reply.
pub trait FrameEncoder: Sized {
    /// A picture with its padding.
    type Frame;

    /// The codec's own part of [`EncoderConfig`].
    type Settings;

    /// The codec's own part of [`Sequence`].
    type SequenceHeader;

    /// How inter frames refer to each other.
    type InterConfig;

    /// One item of T.35 metadata.
    type T35;

    /// The reconstructed frames that may be referred to.
    type RecBuffer;

    /// The codec's own part of [`FrameInvariants`].
    type CodedFrameData;

    /// Motion estimates of a frame.
    type FrameMEStats;

    /// The codec's own part of [`FrameState`].
    type StateData;

    /// What the entropy coder recorded while it wrote a frame.
    type Recording;

    /// How inter frames refer to each other under the given settings.
    fn new_inter_config(&self, enc_config: &EncoderConfig<Self::Settings>) -> Self::InterConfig;

    /// A picture of the given size, with the default padding.
    fn new_frame(
        &self,
        width: usize,
        height: usize,
        chroma_sampling: ChromaSampling,
    ) -> Self::Frame;

    /// The invariants of a key frame.
    fn new_key_frame(
        &self,
        config: Arc<EncoderConfig<Self::Settings>>,
        sequence: Arc<Sequence<Self::SequenceHeader>>,
        gop_input_frameno_start: u64,
        t35_metadata: Vec<Self::T35>,
    ) -> FrameInvariants<Self>;

    /// The invariants of an inter frame that follows `previous`, or nothing if
    /// no such frame belongs in the GOP.
    fn new_inter_frame(
        &self,
        previous: &FrameInvariants<Self>,
        inter_cfg: &Self::InterConfig,
        gop_input_frameno_start: u64,
        output_frameno_in_gop: u64,
        next_keyframe_input_frameno: u64,
        error_resilient: bool,
        t35_metadata: Vec<Self::T35>,
    ) -> Option<FrameInvariants<Self>>;

    /// The state in which the encoding of `frame` starts.
    fn new_frame_state(&self, fi: &FrameInvariants<Self>, frame: Arc<Self::Frame>) -> FrameState<
        Self,
    >;

    /// For each reference in `fi.rec_buffer`, whether it is shown after the frame.
    fn ref_frame_sign_bias(&self, fi: &FrameInvariants<Self>) -> [bool; INTER_REFS_PER_FRAME];

    /// Motion estimates of the frame against the references in `fi.rec_buffer`.
    fn compute_motion_vectors(
        &self,
        fi: &FrameInvariants<Self>,
        fs: &FrameState<Self>,
        inter_cfg: &Self::InterConfig,
    ) -> Self::FrameMEStats;

    /// Encodes a frame: the state after it, the bytes of its packet, and what
    /// was recorded while they were written.
    fn encode_frame_with_phasm_tee(
        &self,
        fi: &FrameInvariants<Self>,
        fs: FrameState<Self>,
        inter_cfg: &Self::InterConfig,
    ) -> (FrameState<Self>, Vec<u8>, Self::Recording);

    /// A copy of `frame` whose first `planes` planes are padded around the
    /// visible area of `width` by `height` pixels.
    fn pad(&self, frame: &Self::Frame, width: usize, height: usize, planes: usize) -> Self::Frame;

    /// `fi.rec_buffer` with the reconstruction of the frame stored in it.
    fn update_rec_buffer(
        &self,
        output_frameno: u64,
        fi: &FrameInvariants<Self>,
        fs: &FrameState<Self>,
    ) -> Self::RecBuffer;
}

} // verus!

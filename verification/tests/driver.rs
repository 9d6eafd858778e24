use phasm_av1::encoder::{
    ChromaSampling, EncoderConfig, FrameEncoder, FrameInvariants, FrameState, FrameType, Sequence,
    INTER_REFS_PER_FRAME,
};
use phasm_av1::phasm_stego::{
    encode_gop_with_phasm_tee, lookahead_enabled, make_frame, make_inter_config,
    pad_and_update_ref, run_one_frame_lookahead, GopError,
};
use phasm_av1::phasm_stego_lookahead::{
    compute_distortion_scales_for_window, LookaheadWindowFrame,
};
use std::cell::RefCell;
use std::sync::Arc;

/// A picture: one sample stands for all of them.
#[derive(Clone, Debug, PartialEq)]
struct Picture {
    sample: u8,
    size: (usize, usize),
    sampling: ChromaSampling,
    padding: Option<(usize, usize, usize)>,
}

#[derive(Clone, Debug, PartialEq)]
struct Recording {
    frameno: u64,
    reconstruction: Arc<Picture>,
    segmented: bool,
    low_latency: bool,
    quantizer: u8,
    level: u8,
    sign_bias: [bool; INTER_REFS_PER_FRAME],
}

/// A codec that writes down every call.
struct Codec {
    calls: RefCell<Vec<String>>,
    refuse_at: Option<u64>,
    all_key: bool,
}

impl Codec {
    fn new() -> Self {
        Codec { calls: RefCell::new(Vec::new()), refuse_at: None, all_key: false }
    }

    fn note(&self, call: String) {
        self.calls.borrow_mut().push(call);
    }
}

impl FrameEncoder for Codec {
    type Frame = Picture;
    type Settings = u8;
    type SequenceHeader = u8;
    type InterConfig = bool;
    type T35 = u8;
    type RecBuffer = Vec<(u64, Picture)>;
    type CodedFrameData = u64;
    type FrameMEStats = u8;
    type StateData = u8;
    type Recording = Recording;

    fn new_inter_config(&self, enc_config: &EncoderConfig<u8>) -> bool {
        self.note(format!("inter_config {}", enc_config.low_latency));
        enc_config.low_latency
    }

    fn new_frame(&self, width: usize, height: usize, sampling: ChromaSampling) -> Picture {
        Picture { sample: 0, size: (width, height), sampling, padding: None }
    }

    fn new_key_frame(
        &self,
        config: Arc<EncoderConfig<u8>>,
        sequence: Arc<Sequence<u8>>,
        start: u64,
        t35: Vec<u8>,
    ) -> FrameInvariants<Self> {
        self.note(format!("key_frame {} {} {}", start, t35.len(), config.low_latency));
        FrameInvariants {
            width: config.width,
            height: config.height,
            config,
            sequence,
            frame_type: FrameType::KEY,
            enable_segmentation: true,
            ref_frame_sign_bias: [false; INTER_REFS_PER_FRAME],
            rec_buffer: Vec::new(),
            coded_frame_data: 0,
        }
    }

    fn new_inter_frame(
        &self,
        previous: &FrameInvariants<Self>,
        _inter_cfg: &bool,
        start: u64,
        frameno: u64,
        next: u64,
        error_resilient: bool,
        t35: Vec<u8>,
    ) -> Option<FrameInvariants<Self>> {
        self.note(format!(
            "inter_frame after {}: {} {} {} {} {}",
            previous.coded_frame_data,
            start,
            frameno,
            next,
            error_resilient,
            t35.len()
        ));
        if self.refuse_at == Some(frameno) {
            return None;
        }
        Some(FrameInvariants {
            config: Arc::clone(&previous.config),
            sequence: Arc::clone(&previous.sequence),
            width: previous.width,
            height: previous.height,
            frame_type: if self.all_key { FrameType::KEY } else { FrameType::INTER },
            enable_segmentation: true,
            ref_frame_sign_bias: [false; INTER_REFS_PER_FRAME],
            rec_buffer: Vec::new(),
            coded_frame_data: frameno,
        })
    }

    fn new_frame_state(
        &self,
        fi: &FrameInvariants<Self>,
        frame: Arc<Picture>,
    ) -> FrameState<Self> {
        self.note(format!("state {} of {}", fi.coded_frame_data, frame.sample));
        FrameState { data: frame.sample, rec: frame, frame_me_stats: 0 }
    }

    fn ref_frame_sign_bias(&self, fi: &FrameInvariants<Self>) -> [bool; INTER_REFS_PER_FRAME] {
        self.note(format!("sign_bias {}", fi.coded_frame_data));
        let mut bias = [false; INTER_REFS_PER_FRAME];
        bias[0] = !fi.rec_buffer.is_empty();
        bias
    }

    fn compute_motion_vectors(
        &self,
        fi: &FrameInvariants<Self>,
        fs: &FrameState<Self>,
        _inter_cfg: &bool,
    ) -> u8 {
        self.note(format!("motion {}", fi.coded_frame_data));
        100 + fs.data + fi.rec_buffer.len() as u8
    }

    fn encode_frame_with_phasm_tee(
        &self,
        fi: &FrameInvariants<Self>,
        fs: FrameState<Self>,
        inter_cfg: &bool,
    ) -> (FrameState<Self>, Vec<u8>, Recording) {
        self.note(format!("encode {}", fi.coded_frame_data));
        let mut packet = vec![fs.data, fs.frame_me_stats];
        for (frameno, picture) in &fi.rec_buffer {
            packet.push(*frameno as u8);
            packet.push(picture.sample);
            packet.push(picture.padding.is_some() as u8);
        }
        let mut rec = (*fs.rec).clone();
        rec.sample += 1;
        let rec = Arc::new(rec);
        let recording = Recording {
            frameno: fi.coded_frame_data,
            reconstruction: Arc::clone(&rec),
            segmented: fi.enable_segmentation,
            low_latency: *inter_cfg && fi.config.low_latency,
            quantizer: *fi.config.settings,
            level: fi.sequence.header,
            sign_bias: fi.ref_frame_sign_bias,
        };
        (FrameState { rec, ..fs }, packet, recording)
    }

    fn pad(&self, frame: &Picture, width: usize, height: usize, planes: usize) -> Picture {
        self.note(format!("pad {} {}x{} {}", frame.sample, width, height, planes));
        Picture { padding: Some((width, height, planes)), ..frame.clone() }
    }

    fn update_rec_buffer(
        &self,
        frameno: u64,
        fi: &FrameInvariants<Self>,
        fs: &FrameState<Self>,
    ) -> Vec<(u64, Picture)> {
        self.note(format!("reference {}", frameno));
        let mut buffer = fi.rec_buffer.clone();
        buffer.push((frameno, (*fs.rec).clone()));
        buffer
    }
}

fn small_config() -> EncoderConfig<u8> {
    let mut cfg = EncoderConfig::default();
    cfg.settings = Arc::new(77);
    cfg.width = 16;
    cfg.height = 8;
    cfg
}

fn picture(sample: u8) -> Arc<Picture> {
    Arc::new(Picture {
        sample,
        size: (16, 8),
        sampling: ChromaSampling::Cs420,
        padding: None,
    })
}

fn encode(
    codec: &Codec,
    samples: &[u8],
    sampling: ChromaSampling,
    lookahead: bool,
) -> Result<Vec<(Vec<u8>, Recording)>, GopError> {
    let yuvs: Vec<Arc<Picture>> = samples.iter().map(|s| picture(*s)).collect();
    encode_gop_with_phasm_tee(
        codec,
        &yuvs,
        Arc::new(small_config()),
        Arc::new(Sequence { chroma_sampling: sampling, header: 13 }),
        lookahead,
    )
}

fn window_frame(codec: &Codec, frame_type: FrameType, sample: u8) -> LookaheadWindowFrame<Codec> {
    let mut fi = codec.new_key_frame(
        Arc::new(small_config()),
        Arc::new(Sequence { chroma_sampling: ChromaSampling::Cs420, header: 13 }),
        0,
        Vec::new(),
    );
    fi.frame_type = frame_type;
    fi.coded_frame_data = sample as u64;
    let yuv = picture(sample);
    let fs = codec.new_frame_state(&fi, Arc::clone(&yuv));
    LookaheadWindowFrame { fi, fs, yuv, output_frameno: 40 + sample as u64 }
}

#[test]
fn empty_window_is_noop() {
    let codec = Codec::new();
    let mut window: Vec<LookaheadWindowFrame<Codec>> = Vec::new();
    let mut cfg = EncoderConfig::default();
    cfg.width = 16;
    cfg.height = 16;
    let inter_cfg = make_inter_config(&codec, &cfg);
    compute_distortion_scales_for_window(&codec, &mut window, &inter_cfg, 8);
    assert!(window.is_empty());
    assert_eq!(*codec.calls.borrow(), vec!["inter_config false"]);
}

#[test]
fn window_refines_all_but_key_frames() {
    let codec = Codec::new();
    let mut window = vec![
        window_frame(&codec, FrameType::INTER, 1),
        window_frame(&codec, FrameType::KEY, 2),
        window_frame(&codec, FrameType::INTRA_ONLY, 3),
        window_frame(&codec, FrameType::SWITCH, 4),
    ];
    codec.calls.borrow_mut().clear();
    compute_distortion_scales_for_window(&codec, &mut window, &true, 8);
    assert_eq!(*codec.calls.borrow(), vec!["motion 1", "motion 3", "motion 4"]);
    let stats: Vec<u8> = window.iter().map(|f| f.fs.frame_me_stats).collect();
    assert_eq!(stats, vec![101, 0, 103, 104]);
    for (i, frame) in window.iter().enumerate() {
        let sample = i as u8 + 1;
        assert_eq!(frame.output_frameno, 40 + sample as u64);
        assert_eq!(*frame.yuv, *picture(sample));
        assert_eq!(*frame.fs.rec, *picture(sample));
        assert_eq!(frame.fs.data, sample);
        assert_eq!(frame.fi.coded_frame_data, sample as u64);
        assert!(frame.fi.enable_segmentation);
    }
}

#[test]
fn one_frame_goes_into_a_window_and_out_again() {
    let codec = Codec::new();
    let LookaheadWindowFrame { fi, fs, yuv, .. } = window_frame(&codec, FrameType::INTER, 7);
    let (fi, fs) = run_one_frame_lookahead(&codec, fi, fs, yuv, 3, &true, 10);
    assert_eq!(fi.coded_frame_data, 7);
    assert_eq!(fi.frame_type, FrameType::INTER);
    assert_eq!(fs.frame_me_stats, 107);
    assert_eq!(*fs.rec, *picture(7));

    let LookaheadWindowFrame { fi, fs, yuv, .. } = window_frame(&codec, FrameType::KEY, 7);
    let (fi, fs) = run_one_frame_lookahead(&codec, fi, fs, yuv, 3, &true, 10);
    assert_eq!(fi.frame_type, FrameType::KEY);
    assert_eq!(fs.frame_me_stats, 0);
}

#[test]
fn gop_makes_these_calls() {
    let codec = Codec::new();
    let results = encode(&codec, &[10, 20, 30], ChromaSampling::Cs420, false).unwrap();
    assert_eq!(
        *codec.calls.borrow(),
        vec![
            "inter_config true",
            "key_frame 0 0 true",
            "state 0 of 10",
            "encode 0",
            "pad 11 16x8 3",
            "reference 0",
            "inter_frame after 0: 0 1 3 false 0",
            "sign_bias 1",
            "state 1 of 20",
            "encode 1",
            "pad 21 16x8 3",
            "reference 1",
            "inter_frame after 1: 0 2 3 false 0",
            "sign_bias 2",
            "state 2 of 30",
            "encode 2",
            "pad 31 16x8 3",
            "reference 2",
        ]
    );
    assert_eq!(results.len(), 3);
}

#[test]
fn results_are_in_input_order_with_chained_references() {
    let codec = Codec::new();
    let results = encode(&codec, &[10, 20, 30], ChromaSampling::Cs420, false).unwrap();
    assert_eq!(results[0].0, vec![10, 0]);
    assert_eq!(results[1].0, vec![20, 0, 0, 11, 1]);
    assert_eq!(results[2].0, vec![30, 0, 0, 11, 1, 1, 21, 1]);
    for (i, (_, recording)) in results.iter().enumerate() {
        assert_eq!(recording.frameno, i as u64);
        assert_eq!(recording.sign_bias[0], i > 0);
        assert!(!recording.sign_bias[1]);
    }
}

#[test]
fn recordings_keep_the_unpadded_reconstruction() {
    let codec = Codec::new();
    let results = encode(&codec, &[10, 20], ChromaSampling::Cs420, false).unwrap();
    assert_eq!(*results[0].1.reconstruction, *picture(11));
    assert_eq!(*results[1].1.reconstruction, *picture(21));
}

#[test]
fn segmentation_is_off_and_latency_low() {
    let codec = Codec::new();
    assert!(!small_config().low_latency);
    for (_, recording) in encode(&codec, &[1, 2, 3], ChromaSampling::Cs444, true).unwrap() {
        assert!(!recording.segmented);
        assert!(recording.low_latency);
        assert_eq!(recording.quantizer, 77);
        assert_eq!(recording.level, 13);
    }
}

#[test]
fn low_latency_setting_makes_no_difference() {
    let yuvs = vec![picture(1), picture(2)];
    let sequence = Arc::new(Sequence { chroma_sampling: ChromaSampling::Cs420, header: 13 });
    let mut on = small_config();
    on.low_latency = true;
    let off = small_config();
    let a = encode_gop_with_phasm_tee(&Codec::new(), &yuvs, Arc::new(on), sequence.clone(), true);
    let b = encode_gop_with_phasm_tee(&Codec::new(), &yuvs, Arc::new(off), sequence, true);
    assert_eq!(a, b);
}

#[test]
fn lookahead_comes_before_each_inter_frame() {
    let codec = Codec::new();
    let results = encode(&codec, &[10, 20, 30], ChromaSampling::Cs420, true).unwrap();
    assert_eq!(results[0].0, vec![10, 0]);
    assert_eq!(results[1].0, vec![20, 121, 0, 11, 1]);
    assert_eq!(results[2].0, vec![30, 132, 0, 11, 1, 1, 21, 1]);
    let calls = codec.calls.borrow();
    let position = |call: &str| calls.iter().position(|c| c == call);
    assert_eq!(position("motion 0"), None);
    assert!(position("state 1 of 20") < position("motion 1"));
    assert!(position("motion 1") < position("encode 1"));
    assert!(position("motion 2") < position("encode 2"));
}

#[test]
fn lookahead_passes_key_frames_by() {
    let mut on = Codec::new();
    on.all_key = true;
    let mut off = Codec::new();
    off.all_key = true;
    let with = encode(&on, &[4, 5], ChromaSampling::Cs420, true).unwrap();
    let without = encode(&off, &[4, 5], ChromaSampling::Cs420, false).unwrap();
    assert_eq!(with, without);
    assert_eq!(*on.calls.borrow(), *off.calls.borrow());
}

#[test]
fn replay_gives_the_same_results() {
    let a = encode(&Codec::new(), &[9, 8, 7, 6], ChromaSampling::Cs422, true);
    let b = encode(&Codec::new(), &[9, 8, 7, 6], ChromaSampling::Cs422, true);
    assert!(a.is_ok());
    assert_eq!(a, b);
}

#[test]
fn later_pictures_make_no_difference() {
    let a = encode(&Codec::new(), &[9, 8, 7, 6], ChromaSampling::Cs420, true).unwrap();
    let b = encode(&Codec::new(), &[9, 8, 1, 2], ChromaSampling::Cs420, true).unwrap();
    assert_eq!(a[..2], b[..2]);
    assert_ne!(a[2], b[2]);
}

#[test]
fn key_frame_is_the_same_without_lookahead() {
    let on = encode(&Codec::new(), &[9, 8], ChromaSampling::Cs420, true).unwrap();
    let off = encode(&Codec::new(), &[9, 8], ChromaSampling::Cs420, false).unwrap();
    assert_eq!(on.len(), off.len());
    assert_eq!(on[0], off[0]);
    assert_ne!(on[1], off[1]);
}

#[test]
fn knobs_that_are_off_agree() {
    let baseline = encode(&Codec::new(), &[3, 2, 1], ChromaSampling::Cs420, false).unwrap();
    for knob in [None, Some("0"), Some("abc")] {
        let lookahead = lookahead_enabled(knob);
        let results = encode(&Codec::new(), &[3, 2, 1], ChromaSampling::Cs420, lookahead);
        assert_eq!(results.unwrap(), baseline);
    }
}

#[test]
fn window_is_the_sum_of_its_parts() {
    let codec = Codec::new();
    let types = [FrameType::INTER, FrameType::KEY, FrameType::INTER];
    let frames = |from: usize, to: usize| -> Vec<LookaheadWindowFrame<Codec>> {
        (from..to).map(|i| window_frame(&codec, types[i], i as u8)).collect()
    };
    let mut whole = frames(0, 3);
    compute_distortion_scales_for_window(&codec, &mut whole, &true, 8);
    let expected: Vec<u8> = whole.iter().map(|f| f.fs.frame_me_stats).collect();
    assert_eq!(expected, vec![100, 0, 102]);
    for split in 0..4 {
        let mut a = frames(0, split);
        let mut b = frames(split, 3);
        compute_distortion_scales_for_window(&codec, &mut a, &true, 8);
        compute_distortion_scales_for_window(&codec, &mut b, &true, 8);
        let stats: Vec<u8> = a.iter().chain(b.iter()).map(|f| f.fs.frame_me_stats).collect();
        assert_eq!(stats, expected);
    }
}

#[test]
fn frame_number_and_bit_depth_make_no_difference() {
    let codec = Codec::new();
    let mut window = vec![
        window_frame(&codec, FrameType::INTER, 5),
        window_frame(&codec, FrameType::INTER, 5),
    ];
    window[1].output_frameno = 0;
    compute_distortion_scales_for_window(&codec, &mut window, &true, 12);
    assert_eq!(window[0].fs.frame_me_stats, 105);
    assert_eq!(window[1].fs.frame_me_stats, 105);
    for (frameno, bit_depth) in [(0, 8), (7, 10), (u64::MAX, 12)] {
        let LookaheadWindowFrame { fi, fs, yuv, .. } = window_frame(&codec, FrameType::INTER, 5);
        let (fi, fs) = run_one_frame_lookahead(&codec, fi, fs, yuv, frameno, &true, bit_depth);
        assert_eq!(fi.coded_frame_data, window[0].fi.coded_frame_data);
        assert_eq!(fs.frame_me_stats, window[0].fs.frame_me_stats);
    }
}

#[test]
fn missing_inter_frame_is_an_error() {
    let mut codec = Codec::new();
    codec.refuse_at = Some(2);
    assert_eq!(
        encode(&codec, &[1, 2, 3, 4], ChromaSampling::Cs420, false),
        Err(GopError::NoInterFrame { output_frameno: 2 })
    );
    assert_eq!(encode(&codec, &[1, 2], ChromaSampling::Cs420, false).unwrap().len(), 2);
}

#[test]
fn one_picture_is_never_refused() {
    let mut codec = Codec::new();
    codec.refuse_at = Some(1);
    let results = encode(&codec, &[200], ChromaSampling::Cs420, true).unwrap();
    assert_eq!(results.len(), 1);
    assert_eq!(results[0].0, vec![200, 0]);
}

#[test]
fn monochrome_has_one_plane() {
    for (sampling, planes) in [
        (ChromaSampling::Cs400, 1),
        (ChromaSampling::Cs420, 3),
        (ChromaSampling::Cs422, 3),
        (ChromaSampling::Cs444, 3),
    ] {
        let codec = Codec::new();
        encode(&codec, &[5], sampling, false).unwrap();
        let call = format!("pad 6 16x8 {}", planes);
        assert!(codec.calls.borrow().contains(&call));
    }
}

#[test]
fn reference_is_padded_and_stored() {
    let codec = Codec::new();
    let LookaheadWindowFrame { mut fi, mut fs, .. } = window_frame(&codec, FrameType::INTER, 9);
    let shared = Arc::clone(&fs.rec);
    pad_and_update_ref(&codec, &mut fi, &mut fs, 17);
    assert_eq!(shared.padding, None);
    assert_eq!(fs.rec.padding, Some((16, 8, 3)));
    assert_eq!(fs.data, 9);
    assert_eq!(fi.rec_buffer, vec![(17, (*fs.rec).clone())]);
    assert_eq!(fi.coded_frame_data, 9);
}

#[test]
fn frames_and_inter_configs_come_from_the_codec() {
    let codec = Codec::new();
    let frame = make_frame(&codec, 64, 48, ChromaSampling::Cs422);
    assert_eq!(frame.size, (64, 48));
    assert_eq!(frame.sampling, ChromaSampling::Cs422);
    let mut cfg = EncoderConfig::default();
    assert!(!make_inter_config(&codec, &cfg));
    cfg.low_latency = true;
    assert!(make_inter_config(&codec, &cfg));
}

#[test]
fn default_config() {
    let cfg: EncoderConfig<u8> = EncoderConfig::default();
    assert_eq!(
        cfg,
        EncoderConfig {
            width: 640,
            height: 480,
            bit_depth: 8,
            low_latency: false,
            settings: Arc::new(0),
        }
    );
}

#[test]
fn low_latency_leaves_the_other_settings() {
    let cfg = small_config().with_low_latency();
    assert_eq!(
        cfg,
        EncoderConfig {
            width: 16,
            height: 8,
            bit_depth: 8,
            low_latency: true,
            settings: Arc::new(77),
        }
    );
}

#[test]
fn lookahead_knob() {
    assert!(!lookahead_enabled(None));
    for text in ["", "0", "00", "+0", "-1", "+", "++1", "256", "1000", " 1", "1 ", "on", "1x", "0x1"] {
        assert!(!lookahead_enabled(Some(text)));
    }
    for text in ["1", "2", "01", "+1", "255", "000255", "10"] {
        assert!(lookahead_enabled(Some(text)));
    }
    for n in 0u16..300 {
        let text = format!("{}", n);
        let expected = text.parse::<u8>().ok().map(|n| n != 0).unwrap_or(false);
        assert_eq!(lookahead_enabled(Some(&text)), expected);
    }
}

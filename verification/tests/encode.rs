use avbridge::decoder::{FrameData, FrameEvent, PixelFormat, SubmitEvent};
use avbridge::encoder::{
    tuning_of, tuning_options, tuning_profile, PacketData, PacketEvent, SubmitOutcome, Tuning,
    FF_PROFILE_H264_CONSTRAINED_BASELINE,
};
use avbridge::native::SetupEvent;
use avbridge::{
    Codec, CodecId, CodecKind, Decoder, DecoderConfig, Encoder, EncoderConfig, Error,
    NativeBuffers, OwnedFrame, OwnedPacket, Packet, PaddedDataImpl,
};

fn registry() -> Vec<Codec> {
    vec![
        Codec {
            name: "h264".to_owned(),
            long_name: "H.264 decoder".to_owned(),
            id: CodecId::H264,
            hw: false,
            encoder: false,
            video: true,
        },
        Codec {
            name: "libx264".to_owned(),
            long_name: "x264 H.264 / AVC / MPEG-4 AVC".to_owned(),
            id: CodecId::H264,
            hw: false,
            encoder: true,
            video: true,
        },
        Codec {
            name: "h264_nvenc".to_owned(),
            long_name: "NVIDIA NVENC H.264 encoder".to_owned(),
            id: CodecId::H264,
            hw: true,
            encoder: true,
            video: true,
        },
        Codec {
            name: "libvpx-vp9".to_owned(),
            long_name: "libvpx VP9".to_owned(),
            id: CodecId::Vp9,
            hw: false,
            encoder: true,
            video: true,
        },
    ]
}

fn config() -> EncoderConfig {
    EncoderConfig {
        bitrate: 2_000_000,
        width: 4,
        height: 2,
        fps: 30,
        thread_count: 4,
        max_b_frames: 0,
        keyframe_distance: 300,
    }
}

fn tiny_frame(rotation: usize) -> OwnedFrame {
    OwnedFrame {
        width: 4,
        height: 2,
        strides: [4, 2, 2],
        y: vec![1; 8],
        u: vec![2; 2],
        v: vec![3; 2],
        rotation,
    }
}

fn accepted() -> SubmitOutcome {
    SubmitOutcome { status: 0, detail: String::new(), retained: false }
}

#[test]
fn test_instantiate_encoder() {
    let codec = Codec::list(&registry(), CodecKind::Encoder)
        .into_iter()
        .find(|c| c.name() == "libx264")
        .unwrap();
    let config = EncoderConfig {
        bitrate: 2_000_000,
        width: 1024,
        height: 768,
        fps: 30,
        thread_count: 4,
        max_b_frames: 0,
        keyframe_distance: 300,
    };
    Encoder::new(&codec, &config, SetupEvent::Opened).unwrap();
}

#[test]
fn encoder_rejects_a_codec_that_is_no_encoder() {
    let reg = registry();
    let r = Encoder::new(&reg[0], &config(), SetupEvent::Opened);
    assert_eq!(r.err(), Some(Error::CodecIsNotEncoder("h264".to_owned())));
}

#[test]
fn unsupported_profile_fails_open_with_native_status() {
    // An encoder whose requested profile the implementation cannot satisfy:
    // the engine refuses to open, and the failure carries the native status
    // instead of being silently ignored.
    let reg = registry();
    let r = Encoder::new(
        &reg[1],
        &config(),
        SetupEvent::OpenFailed(-22, "Invalid argument".to_owned()),
    );
    assert_eq!(r.err(), Some(Error::CodecOpenError(-22, "Invalid argument".to_owned())));
}

#[test]
fn tuning_is_selected_by_implementation() {
    let reg = registry();
    assert_eq!(tuning_of(&reg[1]), Tuning::X264);
    assert_eq!(tuning_of(&reg[2]), Tuning::Nvenc);
    assert_eq!(tuning_of(&reg[3]), Tuning::Vpx);
    assert_eq!(tuning_of(&reg[0]), Tuning::X264);

    let opts = tuning_options(Tuning::X264);
    assert_eq!(
        opts,
        vec![
            ("preset".to_owned(), "ultrafast".to_owned()),
            ("tune".to_owned(), "zerolatency".to_owned()),
        ]
    );
    let opts = tuning_options(Tuning::Nvenc);
    assert_eq!(
        opts,
        vec![
            ("preset".to_owned(), "llhp".to_owned()),
            ("rc".to_owned(), "vbr".to_owned()),
            ("profile".to_owned(), "baseline".to_owned()),
        ]
    );
    assert_eq!(
        tuning_options(Tuning::Vpx),
        vec![("lag_in_frames".to_owned(), "0".to_owned())]
    );
    assert!(tuning_options(Tuning::Stock).is_empty());

    assert_eq!(tuning_profile(Tuning::X264), Some(FF_PROFILE_H264_CONSTRAINED_BASELINE));
    assert_eq!(tuning_profile(Tuning::Nvenc), None);
}

#[test]
fn encoder_getters_report_the_configuration() {
    let reg = registry();
    let enc = Encoder::new(&reg[1], &config(), SetupEvent::Opened).unwrap();
    assert_eq!(enc.width(), 4);
    assert_eq!(enc.height(), 2);
    assert_eq!(enc.codec().name(), "libx264");
}

#[test]
fn single_frame_yields_a_packet_with_its_metadata() {
    let reg = registry();
    let mut bufs = NativeBuffers::new();
    let mut enc = Encoder::new(&reg[1], &config(), SetupEvent::Opened).unwrap();

    let sub = enc.encode(&mut bufs, tiny_frame(90), true, accepted()).unwrap();
    // The first frame is stamped with timestamp 0 and the keyframe mark.
    assert_eq!(sub.pts, 0);
    assert!(sub.force_keyframe);
    assert_eq!(sub.width, 4);
    assert_eq!(sub.height, 2);
    assert_eq!(sub.strides, vec![4, 2, 2]);
    assert_eq!(sub.plane_sizes, vec![8, 2, 2]);

    let pd = PacketData { data: vec![0x17, 0x42], pts: 0, flags: 1 };
    let p = enc.next_packet(&mut bufs, PacketEvent::Ready(pd)).unwrap().unwrap();
    assert_eq!(p.data(), &[0x17, 0x42][..]);
    assert!(p.keyframe());
    assert_eq!(p.rotation(), 90);
    assert_eq!(p.pts(), 0);
    p.release(&mut bufs);
    assert!(enc.next_packet(&mut bufs, PacketEvent::Again).is_none());

    // The next frame gets the next sequential timestamp.
    let sub = enc.encode(&mut bufs, tiny_frame(0), false, accepted()).unwrap();
    assert_eq!(sub.pts, 1);
    assert!(!sub.force_keyframe);
}

#[test]
fn non_keyframe_packet_reports_no_keyframe() {
    let reg = registry();
    let mut bufs = NativeBuffers::new();
    let mut enc = Encoder::new(&reg[1], &config(), SetupEvent::Opened).unwrap();
    enc.encode(&mut bufs, tiny_frame(0), false, accepted()).unwrap();
    let pd = PacketData { data: vec![9], pts: 0, flags: 0 };
    let p = enc.next_packet(&mut bufs, PacketEvent::Ready(pd)).unwrap().unwrap();
    assert!(!p.keyframe());
    p.release(&mut bufs);
}

#[test]
fn rejected_frame_is_surfaced_and_yields_nothing() {
    let reg = registry();
    let mut bufs = NativeBuffers::new();
    let mut enc = Encoder::new(&reg[1], &config(), SetupEvent::Opened).unwrap();
    let reject = SubmitOutcome { status: -12, detail: "Cannot allocate memory".to_owned(), retained: false };
    let r = enc.encode(&mut bufs, tiny_frame(0), false, reject);
    assert_eq!(
        r.err(),
        Some(Error::EncodeFrameFailed(-12, "Cannot allocate memory".to_owned()))
    );
    let pd = PacketData { data: vec![9], pts: 0, flags: 0 };
    assert!(enc.next_packet(&mut bufs, PacketEvent::Ready(pd)).is_none());
}

#[test]
fn packet_drain_failure_ends_the_sequence_with_one_error() {
    let reg = registry();
    let mut bufs = NativeBuffers::new();
    let mut enc = Encoder::new(&reg[1], &config(), SetupEvent::Opened).unwrap();
    enc.encode(&mut bufs, tiny_frame(0), false, accepted()).unwrap();
    let r = enc.next_packet(&mut bufs, PacketEvent::Failed(-5, "I/O error".to_owned()));
    match r {
        Some(Err(e)) => assert_eq!(e, Error::ReceivePacketFailed(-5, "I/O error".to_owned())),
        _ => panic!("expected the drain to end with an error"),
    }
    let pd = PacketData { data: vec![9], pts: 0, flags: 0 };
    assert!(enc.next_packet(&mut bufs, PacketEvent::Ready(pd)).is_none());
}

#[test]
fn unretained_frame_memory_is_released_during_encode() {
    let reg = registry();
    let mut bufs = NativeBuffers::new();
    let mut enc = Encoder::new(&reg[1], &config(), SetupEvent::Opened).unwrap();
    enc.encode(&mut bufs, tiny_frame(0), false, accepted()).unwrap();
    // The frame's transferred allocation — all three planes — was registered
    // and released exactly once before encode returned.
    assert_eq!(bufs.count(), 1);
    assert_eq!(bufs.refcount(0), Some(0));
    assert_eq!(bufs.releases(0), Some(1));
}

#[test]
fn retained_frame_transfer_carries_all_planes() {
    let reg = registry();
    let mut bufs = NativeBuffers::new();
    let mut enc = Encoder::new(&reg[1], &config(), SetupEvent::Opened).unwrap();
    let keep = SubmitOutcome { status: 0, detail: String::new(), retained: true };
    enc.encode(&mut bufs, tiny_frame(0), false, keep).unwrap();
    // The engine holds the frame's transferred allocation: all three planes,
    // in order, in one region.
    assert_eq!(bufs.refcount(0), Some(1));
    let mut expected = vec![1u8; 8];
    expected.extend_from_slice(&[2, 2, 3, 3]);
    assert_eq!(bufs.data(0).as_slice(), expected.as_slice());
    bufs.decref(0);
    assert_eq!(bufs.releases(0), Some(1));
}

#[test]
fn reencoding_a_decoded_frame_reuses_its_native_buffer() {
    let reg = registry();
    let mut bufs = NativeBuffers::new();

    // Decode one unit into a frame backed by an engine-owned buffer.
    let mut dec = Decoder::new(&reg[0], &DecoderConfig::default(), SetupEvent::Opened).unwrap();
    let pkt = OwnedPacket {
        data: PaddedDataImpl::from_vec(vec![1, 2, 3]),
        pts: 10,
        rotation: 0,
        keyframe: true,
    };
    dec.decode(
        &mut bufs,
        pkt,
        SubmitEvent::Sent { status: 0, detail: String::new(), retained: false },
    )
    .unwrap();
    let fd = FrameData {
        width: 4,
        height: 2,
        format: PixelFormat::Yuv420p,
        strides: vec![4, 2, 2],
        planes: vec![vec![7; 8], vec![8; 2], vec![9; 2]],
        pts: 10,
    };
    let frame = dec.next_frame(&mut bufs, FrameEvent::Ready(fd)).unwrap().unwrap();
    // Peek at the backing buffer through the raw-handoff pair; the reference
    // stays alive and undecremented across it.
    let (parts, rot, h) = frame.into_raw_parts();
    assert_eq!(bufs.refcount(h), Some(1));
    let frame = avbridge::decoder::DecodedFrame::from_raw_parts(parts, rot, h);

    // Re-submit the decoded frame to an encoder: its buffer is reused, no new
    // buffer is registered, and the engine takes its own reference while the
    // frame's moves on and is given back with the shell.
    let mut enc = Encoder::new(&reg[1], &config(), SetupEvent::Opened).unwrap();
    let before = bufs.count();
    let keep = SubmitOutcome { status: 0, detail: String::new(), retained: true };
    enc.encode(&mut bufs, frame, false, keep).unwrap();
    assert_eq!(bufs.count(), before);
    assert_eq!(bufs.refcount(h), Some(1));
    assert_eq!(bufs.releases(h), Some(0));
    // The engine finishes with it: released exactly once.
    bufs.decref(h);
    assert_eq!(bufs.releases(h), Some(1));
}

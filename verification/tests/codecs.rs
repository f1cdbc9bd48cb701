use avbridge::{Codec, CodecId, CodecKind};

fn registry() -> Vec<Codec> {
    vec![
        Codec {
            name: "libx264".to_owned(),
            long_name: "x264 H.264 / AVC / MPEG-4 AVC".to_owned(),
            id: CodecId::H264,
            hw: false,
            encoder: true,
            video: true,
        },
        Codec {
            name: "h264".to_owned(),
            long_name: "H.264 / AVC / MPEG-4 AVC".to_owned(),
            id: CodecId::H264,
            hw: false,
            encoder: false,
            video: true,
        },
        Codec {
            name: "h264_nvenc".to_owned(),
            long_name: "NVIDIA NVENC H.264 encoder".to_owned(),
            id: CodecId::H264,
            hw: true,
            encoder: true,
            video: true,
        },
        Codec {
            name: "aac".to_owned(),
            long_name: "AAC (Advanced Audio Coding)".to_owned(),
            id: CodecId::Other,
            hw: false,
            encoder: true,
            video: false,
        },
        Codec {
            name: "libvpx-vp9".to_owned(),
            long_name: "libvpx VP9".to_owned(),
            id: CodecId::Vp9,
            hw: false,
            encoder: true,
            video: true,
        },
    ]
}

#[test]
fn test_list_codecs() {
    println!(
        "{:#?}",
        Codec::list(&registry(), CodecKind::Encoder)
            .iter()
            .map(|c| c.name())
            .collect::<Vec<_>>()
    );
}

#[test]
fn list_keeps_only_video_codecs_of_the_kind() {
    let reg = registry();
    let encoders = Codec::list(&reg, CodecKind::Encoder);
    let names: Vec<&str> = encoders.iter().map(|c| c.name()).collect();
    // Registry order, video only, encoders only: the audio encoder and the
    // decoder are gone.
    assert_eq!(names, vec!["libx264", "h264_nvenc", "libvpx-vp9"]);

    let decoders = Codec::list(&reg, CodecKind::Decoder);
    let names: Vec<&str> = decoders.iter().map(|c| c.name()).collect();
    assert_eq!(names, vec!["h264"]);
}

#[test]
fn codec_getters_report_the_registry_entry() {
    let reg = registry();
    let c = &reg[2];
    assert_eq!(c.name(), "h264_nvenc");
    assert_eq!(c.long_name(), "NVIDIA NVENC H.264 encoder");
    assert!(c.is_hw());
    assert_eq!(c.kind(), CodecKind::Encoder);
    assert_eq!(reg[1].kind(), CodecKind::Decoder);
    assert!(!reg[1].is_hw());
}

use restream::domain::stage::{EncodingStagePlan, StageKey, StageKind};

#[test]
fn encoding_plan_produces_typed_video_and_audio_stages() {
    let plan = EncodingStagePlan::from_encoding("pipe", "720p+atrack:0");

    let video = plan.video_stage().unwrap();
    assert_eq!(video.kind, StageKind::video_preset("720p"));
    assert_eq!(video.pipeline.as_str(), "pipe");

    let audio = plan.audio_stage().unwrap();
    assert_eq!(
        audio.kind,
        StageKind::audio_route("atrack:0", StageKind::video_preset("720p"))
    );

    assert_eq!(
        *plan.terminal_kind(),
        StageKind::audio_route("atrack:0", StageKind::video_preset("720p"))
    );
}

#[test]
fn encoding_plan_handles_passthrough_audio_route() {
    let plan = EncodingStagePlan::from_encoding("pipe", "source+remap:0:1");

    assert!(plan.video_stage().is_none());
    let audio = plan.audio_stage().unwrap();
    assert_eq!(
        audio.kind,
        StageKind::audio_route("remap:0:1", StageKind::source())
    );
    assert_eq!(
        *plan.terminal_kind(),
        StageKind::audio_route("remap:0:1", StageKind::source())
    );
}

#[test]
fn encoding_plan_treats_plain_atrack_as_source_audio_route() {
    let plan = EncodingStagePlan::from_encoding("pipe", "atrack:0");

    assert!(plan.video_stage().is_none());
    assert_eq!(
        plan.audio_stage().unwrap().kind,
        StageKind::audio_route("atrack:0", StageKind::source())
    );
    assert_eq!(
        *plan.terminal_kind(),
        StageKind::audio_route("atrack:0", StageKind::source())
    );
}

#[test]
fn codec_edge_uses_terminal_kind() {
    let plan = EncodingStagePlan::from_encoding("pipe", "720p");

    let edge = plan.codec_edge_stage("hevc_to_h264");
    assert_eq!(
        edge.kind,
        StageKind::codec_edge("hevc_to_h264", StageKind::video_preset("720p"))
    );
}

#[test]
fn stage_kind_display_round_trips() {
    let cases: Vec<(StageKind, &str)> = vec![
        (StageKind::source(), "source"),
        (StageKind::hls(), "hls"),
        (StageKind::recording(), "recording"),
        (StageKind::video_preset("720p"), "video:720p"),
        (
            StageKind::audio_route("atrack:0", StageKind::video_preset("720p")),
            "audio:atrack:0:from:video:720p",
        ),
        (
            StageKind::codec_edge("hevc_to_h264", StageKind::source()),
            "hevc_to_h264:from:source",
        ),
        (
            StageKind::codec_edge("hevc_to_h264", StageKind::video_preset("720p")),
            "hevc_to_h264:from:video:720p",
        ),
    ];
    for (kind, expected) in cases {
        assert_eq!(kind.to_text(), expected, "Display for {:?}", kind);
    }
}

#[test]
fn stage_key_display() {
    let key = StageKey::new("pipe", StageKind::video_preset("720p"));
    assert_eq!(key.to_text(), "pipe:video:720p");
}

#[test]
fn audio_route_upstream_is_accessible() {
    let kind = StageKind::audio_route("atrack:0", StageKind::video_preset("720p"));
    assert_eq!(kind.graph_label(), "Audio: atrack:0");
    assert_eq!(*kind.upstream().unwrap(), StageKind::video_preset("720p"));
}

#[test]
fn slugs_and_types_follow_the_kind() {
    let kind = StageKind::codec_edge("hevc_to_h264", StageKind::source());
    assert!(!kind.graph_node_id("pipe").is_empty());
    assert_ne!(kind.graph_type(), StageKind::source().graph_type());
    assert_eq!(StageKind::source().upstream(), None);
    assert_eq!(
        StageKind::audio_route("atrack:0", StageKind::source()).audio_operation(),
        Some("atrack:0")
    );
    assert_eq!(StageKind::video_preset("720p").preset_name(), Some("720p"));
}

use restream::domain::audio_routing::{parse_audio_routing, AudioRouting};

#[test]
fn routing_passthrough_for_plain_video_preset() {
    assert!(matches!(
        parse_audio_routing("720p"),
        AudioRouting::Passthrough
    ));
    assert!(matches!(
        parse_audio_routing("source"),
        AudioRouting::Passthrough
    ));
    assert!(matches!(
        parse_audio_routing("1080p"),
        AudioRouting::Passthrough
    ));
}

#[test]
fn routing_select_tracks_single() {
    let routing = parse_audio_routing("720p+atrack:0");
    assert!(matches!(routing, AudioRouting::SelectTracks(ref t) if t == &[0]));
}

#[test]
fn routing_select_tracks_multiple() {
    let routing = parse_audio_routing("source+atrack:0,2,5");
    assert!(matches!(routing, AudioRouting::SelectTracks(ref t) if t == &[0, 2, 5]));
}

#[test]
fn routing_select_tracks_invalid_falls_back_to_passthrough() {
    assert!(matches!(
        parse_audio_routing("720p+atrack:abc"),
        AudioRouting::Passthrough
    ));
    assert!(matches!(
        parse_audio_routing("720p+atrack:"),
        AudioRouting::Passthrough
    ));
}

#[test]
fn routing_remap_two_channel() {
    let routing = parse_audio_routing("720p+remap:0:1");
    assert!(matches!(
        routing,
        AudioRouting::Remap {
            left: 0,
            right: 1,
            track: 0
        }
    ));
}

#[test]
fn routing_remap_with_track_index() {
    let routing = parse_audio_routing("source+remap:0:1:3");
    assert!(matches!(
        routing,
        AudioRouting::Remap {
            left: 0,
            right: 1,
            track: 3
        }
    ));
}

#[test]
fn routing_remap_default_fallback() {
    let routing = parse_audio_routing("720p+remap:0");
    assert!(matches!(routing, AudioRouting::Passthrough));
}

#[test]
fn routing_downmix_single_track() {
    let routing = parse_audio_routing("source+downmix:0");
    assert!(matches!(routing, AudioRouting::Downmix(0)));
    let routing = parse_audio_routing("720p+downmix:3");
    assert!(matches!(routing, AudioRouting::Downmix(3)));
}

#[test]
fn routing_downmix_invalid_falls_back_to_passthrough() {
    assert!(matches!(
        parse_audio_routing("720p+downmix:abc"),
        AudioRouting::Passthrough
    ));
    assert!(matches!(
        parse_audio_routing("720p+downmix:"),
        AudioRouting::Passthrough
    ));
}

#[test]
fn routing_atrack_standalone() {
    let routing = parse_audio_routing("atrack:0,1");
    assert!(matches!(routing, AudioRouting::SelectTracks(ref t) if t == &[0, 1]));
}

#[test]
fn routing_remap_standalone() {
    let routing = parse_audio_routing("remap:0:1");
    assert!(matches!(
        routing,
        AudioRouting::Remap {
            left: 0,
            right: 1,
            track: 0
        }
    ));
}

#[test]
fn routing_downmix_standalone() {
    let routing = parse_audio_routing("downmix:0");
    assert!(matches!(routing, AudioRouting::Downmix(0)));
}

#[test]
fn parse_passthrough() {
    assert!(matches!(
        parse_audio_routing("source"),
        AudioRouting::Passthrough
    ));
    assert!(matches!(
        parse_audio_routing("720p"),
        AudioRouting::Passthrough
    ));
    assert!(matches!(parse_audio_routing(""), AudioRouting::Passthrough));
}

#[test]
fn parse_atrack() {
    match parse_audio_routing("720p+atrack:0,1") {
        AudioRouting::SelectTracks(t) => assert_eq!(t, vec![0, 1]),
        other => panic!("expected SelectTracks, got {:?}", other),
    }
    match parse_audio_routing("source+atrack:2") {
        AudioRouting::SelectTracks(t) => assert_eq!(t, vec![2]),
        other => panic!("expected SelectTracks, got {:?}", other),
    }
}

#[test]
fn parse_remap() {
    match parse_audio_routing("source+remap:0:1") {
        AudioRouting::Remap { left, right, track } => {
            assert_eq!((left, right, track), (0, 1, 0));
        }
        other => panic!("expected Remap, got {:?}", other),
    }
    match parse_audio_routing("720p+remap:1:0:2") {
        AudioRouting::Remap { left, right, track } => {
            assert_eq!((left, right, track), (1, 0, 2));
        }
        other => panic!("expected Remap, got {:?}", other),
    }
}

#[test]
fn parse_downmix() {
    match parse_audio_routing("source+downmix:1") {
        AudioRouting::Downmix(t) => assert_eq!(t, 1),
        other => panic!("expected Downmix, got {:?}", other),
    }
}

#[test]
fn parse_legacy_remap() {
    match parse_audio_routing("remap:0:1") {
        AudioRouting::Remap { left, right, track } => {
            assert_eq!((left, right, track), (0, 1, 0));
        }
        other => panic!("expected Remap, got {:?}", other),
    }
}

use restream::domain::transcode_profile::TranscodeProfile;

#[test]
fn default_profile_is_accepted() {
    let profile = TranscodeProfile::default();
    assert_eq!(profile.validate(), Ok(()));
    assert_eq!(profile.preset, "ultrafast");
    assert_eq!((profile.crf, profile.gop), (23, 60));
}

#[test]
fn profiles_out_of_range_are_refused() {
    let profile = TranscodeProfile {
        preset: "warp".to_string(),
        crf: 99,
        ..TranscodeProfile::default()
    };
    assert!(profile.validate().unwrap_err().starts_with("preset must be one of"));
    let profile = TranscodeProfile {
        tune: "loud".to_string(),
        ..TranscodeProfile::default()
    };
    assert!(profile.validate().unwrap_err().starts_with("tune must be one of"));
    let profile = TranscodeProfile {
        crf: 52,
        tune: String::new(),
        ..TranscodeProfile::default()
    };
    assert_eq!(profile.validate(), Err("crf must be between 0 and 51"));
}

use restream::ffmpeg_extract::{
    embedded_cache_dir, embedded_cache_key, ensure_ffmpeg_extracted, ffmpeg_bin_path, install_step,
    resolve_ffmpeg_bin_path, FfmpegBinary, InstallAction, InstallEvent, InstallState,
};

#[test]
fn embedded_cache_dir_is_stable_for_same_bytes() {
    let bytes = b"same-binary";
    assert_eq!(
        embedded_cache_dir("/tmp", bytes),
        embedded_cache_dir("/tmp", bytes)
    );
}

#[test]
fn embedded_cache_dir_changes_when_bytes_change() {
    assert_ne!(
        embedded_cache_dir("/tmp", b"binary-a"),
        embedded_cache_dir("/tmp", b"binary-b")
    );
}

#[test]
fn cache_key_is_the_start_of_the_sha_256_digest() {
    assert_eq!(embedded_cache_key(b"same-binary"), "a1f82722bc8e33aa");
    assert_eq!(embedded_cache_key(b""), "e3b0c44298fc1c14");
    assert_eq!(
        embedded_cache_dir("/tmp", b"binary-a"),
        "/tmp/restream-ffmpeg/353797a12e4fbdb4"
    );
}

#[test]
fn users_binary_comes_before_the_embedded_one() {
    let binary = resolve_ffmpeg_bin_path(Some("/usr/bin/ffmpeg".to_string()), "/tmp", b"x");
    assert!(matches!(binary, FfmpegBinary::External(_)));
    assert_eq!(ffmpeg_bin_path(&binary), "/usr/bin/ffmpeg");

    let binary = ensure_ffmpeg_extracted(None, Some("/nowhere".to_string()), "/tmp", b"binary-a");
    assert!(matches!(binary, FfmpegBinary::External(_)));
    assert_eq!(ffmpeg_bin_path(&binary), "/nowhere");

    let binary = resolve_ffmpeg_bin_path(None, "/tmp", b"binary-a");
    assert_eq!(
        ffmpeg_bin_path(&binary),
        "/tmp/restream-ffmpeg/353797a12e4fbdb4/ffmpeg"
    );
}

#[test]
fn resolved_binary_is_kept() {
    let user_path = Some("/b".to_string());
    let binary = ensure_ffmpeg_extracted(Some("/a".to_string()), user_path, "/tmp", b"x");
    assert!(matches!(binary, FfmpegBinary::Cached(_)));
    assert_eq!(ffmpeg_bin_path(&binary), "/a");
}

#[test]
fn installation_that_fails_leaves_no_temporary_file() {
    let (state, action) = install_step(InstallState::Looking, InstallEvent::Looked { exists: false });
    assert_eq!((state, action), (InstallState::Writing, InstallAction::WriteTemp));
    let (state, action) = install_step(state, InstallEvent::Written { ok: true });
    assert_eq!(action, InstallAction::MarkTempExecutable);
    let (state, _) = install_step(state, InstallEvent::Marked { ok: true });
    let (state, action) = install_step(
        state,
        InstallEvent::Renamed {
            ok: false,
            exists: false,
        },
    );
    assert_eq!(
        (state, action),
        (InstallState::Failed, InstallAction::RemoveTempAndAbort)
    );
}

#[test]
fn installation_that_another_process_finished_is_reused() {
    let (state, action) = install_step(
        InstallState::Renaming,
        InstallEvent::Renamed {
            ok: false,
            exists: true,
        },
    );
    assert_eq!(
        (state, action),
        (InstallState::Installed, InstallAction::RemoveTempAndReuse)
    );
}

#[test]
fn cache_key_has_sixteen_digits() {
    for bytes in [&b"same-binary"[..], b"binary-a", b"binary-b", b""] {
        let key = embedded_cache_key(bytes);
        assert_eq!(key.len(), 16);
        assert!(key.chars().all(|c| matches!(c, '0'..='9' | 'a'..='f')));
        assert_eq!(
            embedded_cache_dir("/tmp", bytes),
            format!("/tmp/restream-ffmpeg/{key}")
        );
    }
}

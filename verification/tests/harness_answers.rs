use restream::harness::answers::{
    read_answer, read_packet_probe, read_probe, read_session, read_size, recording_look,
};
use restream::harness::judge::{judge_recording, RecordingLook};
use restream::json::Json;

#[test]
fn answers_are_read_from_their_bodies() {
    let answer = read_answer(true, "200 OK", br#"{"id":"p1","n":7}"#).unwrap();
    assert_eq!(answer.get_text("id"), Some("p1"));
    assert_eq!(answer.get_u64("n"), Some(7));
    assert_eq!(read_answer(true, "204 No Content", b""), Ok(Json::Null));
    assert_eq!(
        read_answer(true, "200 OK", b"{").unwrap_err(),
        "EOF while parsing an object at line 1 column 1"
    );
}

#[test]
fn refused_requests_tell_their_status_and_body() {
    assert_eq!(
        read_answer(false, "404 Not Found", b"no such pipeline").unwrap_err(),
        "HTTP 404 Not Found: no such pipeline"
    );
    assert_eq!(
        read_answer(false, "500 Internal Server Error", b"a\xffb").unwrap_err(),
        "HTTP 500 Internal Server Error: a\u{fffd}b"
    );
    assert_eq!(
        read_answer(false, "400 Bad Request", b"").unwrap_err(),
        "HTTP 400 Bad Request: "
    );
}

#[test]
fn sessions_are_what_stands_before_the_semicolon() {
    assert_eq!(
        read_session(true, "200 OK", Some("session=abc; HttpOnly; Path=/")),
        Ok("session=abc".to_string())
    );
    assert_eq!(
        read_session(true, "200 OK", Some("session=abc")),
        Ok("session=abc".to_string())
    );
    assert_eq!(
        read_session(true, "200 OK", None).unwrap_err(),
        "login response did not include a session cookie"
    );
    assert_eq!(
        read_session(false, "401 Unauthorized", Some("a=b")).unwrap_err(),
        "login failed with HTTP 401 Unauthorized"
    );
}

#[test]
fn probe_that_printed_nothing_has_read_nothing() {
    let printed = br#"{"streams":[{"codec_type":"video"}]}"#;
    let probe = read_probe(true, "rtmp://a/b", printed, b"").unwrap();
    assert_eq!(probe.get_list("streams").map(Vec::len), Some(1));
    assert_eq!(
        read_probe(true, "rtmp://a/b", b"", b"").unwrap_err(),
        "EOF while parsing a value at line 1 column 0"
    );
    assert_eq!(
        read_probe(false, "rtmp://a/b", printed, b"refused\n").unwrap_err(),
        "ffprobe failed for rtmp://a/b: refused\n"
    );
    assert_eq!(
        read_packet_probe(false, "rtmp://a/b", b"", b"refused").unwrap_err(),
        "ffprobe packet capture failed for rtmp://a/b: refused"
    );
    assert_eq!(
        read_packet_probe(true, "rtmp://a/b", b"{}", b""),
        Ok(Json::Object(vec![]))
    );
}

#[test]
fn sizes_are_read_from_the_first_line() {
    assert_eq!(
        read_size(true, "u", b"1280,720\n1920,1080\n", b""),
        Ok("1280x720".to_string())
    );
    assert_eq!(read_size(true, "u", b"", b""), Ok(String::new()));
    assert_eq!(
        read_size(false, "u", b"1280,720", b" refused \n").unwrap_err(),
        "ffprobe failed: u: refused"
    );
}

#[test]
fn recordings_are_judged_by_what_the_probe_printed() {
    let both = br#"{"streams":[{"codec_type":"video"},{"codec_type":"audio"}]}"#;
    assert_eq!(judge_recording(&recording_look(true, both, b"")), Ok(2));
    assert_eq!(
        judge_recording(&recording_look(true, b"[", b"")).unwrap_err(),
        "ffprobe parse failed: EOF while parsing a list at line 1 column 1"
    );
    assert!(matches!(
        recording_look(true, b"", b""),
        RecordingLook::Unreadable { .. }
    ));
    assert_eq!(
        judge_recording(&recording_look(false, both, b"no such file")).unwrap_err(),
        "ffprobe failed: no such file"
    );
}

#[test]
fn values_are_shown_on_one_line_or_on_several() {
    let value = Json::Object(vec![(
        "a".to_string(),
        Json::List(vec![Json::Unsigned(1), Json::Real("0.5".to_string())]),
    )]);
    assert_eq!(value.shown(), r#"{"a":[1,0.5]}"#);
    assert_eq!(value.pretty(), "{\n  \"a\": [\n    1,\n    0.5\n  ]\n}");
}

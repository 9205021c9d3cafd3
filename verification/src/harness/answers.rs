//! What comes back as bytes: the server's answers, and what the probe prints.

use vstd::prelude::*;
use vstd::string::*;

use crate::harness::judge::RecordingLook;
use crate::harness::verdicts::{printed_size, size_in_output};
use crate::json::{json_read, parse_bytes, reading, Json};
use crate::text::{before, lossy, split_once, str_option, text_of_bytes, trim, trimmed};

verus! {

// ── The server ───────────────────────────────────────────────────────────────

/// The session that a server grants: what its cookie says before the first semicolon.
pub fn read_session(success: bool, status: &str, cookie: Option<&str>) -> (r: Result<String, String>)
    ensures
        if !success {
            r is Err && r->Err_0@ == "login failed with HTTP "@ + status@
        } else {
            match str_option(cookie) {
                Some(text) => r is Ok && r->Ok_0@ == before(text, ';'),
                None => r is Err && r->Err_0@ == "login response did not include a session cookie"@,
            }
        },
{
    if !success {
        return Err("login failed with HTTP ".to_string().concat(status));
    }
    match cookie {
        Some(text) => Ok(split_once(text, ';').0),
        None => Err("login response did not include a session cookie".to_string()),
    }
}

/// What an answer with this body comes to.
pub open spec fn answer_of(success: bool, status: Seq<char>, body: Seq<u8>) -> Result<
    Json,
    Seq<char>,
> {
    if !success {
        Err("HTTP "@ + status + ": "@ + lossy(body))
    } else if body.len() == 0 {
        Ok(Json::Null)
    } else {
        json_read(body)
    }
}

/// Reads an answer of the server: its value, or null where it is empty.
pub fn read_answer(success: bool, status: &str, body: &[u8]) -> (r: Result<Json, String>)
    ensures
        reading(r) == answer_of(success, status@, body@),
{
    if !success {
        Err("HTTP ".to_string().concat(status).concat(": ").concat(text_of_bytes(body).as_str()))
    } else if body.len() == 0 {
        Ok(Json::Null)
    } else {
        parse_bytes(body)
    }
}

// ── The probe ────────────────────────────────────────────────────────────────

/// What a run of the probe comes to: what it printed, or `failed`, the address and what it told.
pub open spec fn probe_of(
    success: bool,
    failed: Seq<char>,
    url: Seq<char>,
    printed: Seq<u8>,
    told: Seq<u8>,
) -> Result<Json, Seq<char>> {
    if success {
        json_read(printed)
    } else {
        Err(failed + url + ": "@ + lossy(told))
    }
}

fn read_run(success: bool, failed: &str, url: &str, printed: &[u8], told: &[u8]) -> (r: Result<
    Json,
    String,
>)
    ensures
        reading(r) == probe_of(success, failed@, url@, printed@, told@),
        printed@.len() == 0 ==> r is Err,
{
    if success {
        parse_bytes(printed)
    } else {
        Err(failed.to_string().concat(url).concat(": ").concat(text_of_bytes(told).as_str()))
    }
}

/// Reads what a probe of a stream printed to its output, and told where it failed. A probe that
/// printed nothing has read nothing.
pub fn read_probe(success: bool, url: &str, printed: &[u8], told: &[u8]) -> (r: Result<Json, String>)
    ensures
        reading(r) == probe_of(success, "ffprobe failed for "@, url@, printed@, told@),
        printed@.len() == 0 ==> r is Err,
{
    read_run(success, "ffprobe failed for ", url, printed, told)
}

/// Reads what a probe of a stream's packets printed to its output, and told where it failed.
pub fn read_packet_probe(success: bool, url: &str, printed: &[u8], told: &[u8]) -> (r: Result<
    Json,
    String,
>)
    ensures
        reading(r) == probe_of(
            success,
            "ffprobe packet capture failed for "@,
            url@,
            printed@,
            told@,
        ),
        printed@.len() == 0 ==> r is Err,
{
    read_run(success, "ffprobe packet capture failed for ", url, printed, told)
}

/// Reads the size of a picture from what a probe printed to its output, and told where it failed.
pub fn read_size(success: bool, url: &str, printed: &[u8], told: &[u8]) -> (r: Result<String, String>)
    ensures
        if success {
            r is Ok && r->Ok_0@ == printed_size(lossy(printed@))
        } else {
            r is Err && r->Err_0@ == "ffprobe failed: "@ + url@ + ": "@ + trimmed(lossy(told@))
        },
{
    if success {
        Ok(size_in_output(text_of_bytes(printed).as_str()))
    } else {
        Err(
            "ffprobe failed: ".to_string().concat(url).concat(": ").concat(
                trim(text_of_bytes(told).as_str()).as_str(),
            ),
        )
    }
}

/// What a probe of a recording gave, by what it printed and told.
pub fn recording_look(success: bool, printed: &[u8], told: &[u8]) -> (r: RecordingLook)
    ensures
        if success {
            match json_read(printed@) {
                Ok(value) => r == (RecordingLook::Probed { probe: value }),
                Err(text) => r matches RecordingLook::Unreadable { error } && error@ == text,
            }
        } else {
            r matches RecordingLook::Failed { stderr } && stderr@ == lossy(told@)
        },
        printed@.len() == 0 ==> !(r is Probed),
{
    if success {
        match parse_bytes(printed) {
            Ok(probe) => RecordingLook::Probed { probe },
            Err(error) => RecordingLook::Unreadable { error },
        }
    } else {
        RecordingLook::Failed { stderr: text_of_bytes(told) }
    }
}

// ── Laws ─────────────────────────────────────────────────────────────────────

/// An answer that refuses is an error that tells its status and its body; an empty one that does not
/// is null; any other is what its body says.
pub proof fn answers_are_errors_null_or_values(status: Seq<char>, body: Seq<u8>)
    ensures
        answer_of(false, status, body) == Err::<Json, _>(
            "HTTP "@ + status + ": "@ + lossy(body),
        ),
        body.len() == 0 ==> answer_of(true, status, body) == Ok::<_, Seq<char>>(Json::Null),
        body.len() > 0 ==> answer_of(true, status, body) == json_read(body),
{
}

/// A probe that failed tells the address and what it said; one that did not is what it printed.
pub proof fn probes_fail_with_their_address(
    failed: Seq<char>,
    url: Seq<char>,
    printed: Seq<u8>,
    told: Seq<u8>,
)
    ensures
        probe_of(false, failed, url, printed, told) == Err::<Json, _>(
            failed + url + ": "@ + lossy(told),
        ),
        probe_of(true, failed, url, printed, told) == json_read(printed),
{
}

} // verus!

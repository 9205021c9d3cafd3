//! The addresses that scenarios publish to and read from.

use vstd::prelude::*;
use vstd::string::*;

use crate::number::{decimal, decimal_text};
use crate::reconcile::{
    route_of, rtmp_addresses_go_to_rtmp, srt_addresses_go_to_srt, web_addresses_are_uploaded_to,
    EgressRoute,
};

verus! {

/// The RTMP address of a stream on this machine.
pub open spec fn rtmp_address(port: u16, key: Seq<char>) -> Seq<char> {
    "rtmp://127.0.0.1:"@ + decimal(port as nat) + "/live/"@ + key
}

/// The SRT address under which a stream on this machine is published.
pub open spec fn srt_address(port: u16, key: Seq<char>) -> Seq<char> {
    "srt://127.0.0.1:"@ + decimal(port as nat) + "?streamid=publish:live/"@ + key
        + "&pkt_size=1316"@
}

/// The address of an upload of HLS segments on this machine.
pub open spec fn upload_address(port: u16, cid: Seq<char>) -> Seq<char> {
    "http://127.0.0.1:"@ + decimal(port as nat) + "/upload?cid="@ + cid + "&copy=0&file=out.m3u8"@
}

/// The RTMP address of a stream on this machine.
pub fn rtmp_url(port: u16, key: &str) -> (r: String)
    ensures
        r@ == rtmp_address(port, key@),
{
    "rtmp://127.0.0.1:".to_string().concat(decimal_text(port as u64).as_str()).concat(
        "/live/",
    ).concat(key)
}

/// The SRT address under which a stream on this machine is published.
pub fn srt_url(port: u16, key: &str) -> (r: String)
    ensures
        r@ == srt_address(port, key@),
{
    "srt://127.0.0.1:".to_string().concat(decimal_text(port as u64).as_str()).concat(
        "?streamid=publish:live/",
    ).concat(key).concat("&pkt_size=1316")
}

/// The address of an upload of HLS segments on this machine.
pub fn upload_url(port: u16, cid: &str) -> (r: String)
    ensures
        r@ == upload_address(port, cid@),
{
    "http://127.0.0.1:".to_string().concat(decimal_text(port as u64).as_str()).concat(
        "/upload?cid=",
    ).concat(cid).concat("&copy=0&file=out.m3u8")
}

/// The SRT address of a target that takes a stream.
pub open spec fn srt_target_address(port: u16, key: Seq<char>) -> Seq<char> {
    "srt://127.0.0.1:"@ + decimal(port as nat) + "?streamid=publish:live/"@ + key
}

/// The SRT address of a target that takes a stream.
pub fn srt_target_url(port: u16, key: &str) -> (r: String)
    ensures
        r@ == srt_target_address(port, key@),
{
    "srt://127.0.0.1:".to_string().concat(decimal_text(port as u64).as_str()).concat(
        "?streamid=publish:live/",
    ).concat(key)
}

/// The SRT address of an ingest with a latency of 200 milliseconds.
pub open spec fn srt_ingest_address(port: u16, key: Seq<char>) -> Seq<char> {
    srt_target_address(port, key) + "&latency=200000"@
}

/// The SRT address of an ingest with a latency of 200 milliseconds.
pub fn srt_ingest_url(port: u16, key: &str) -> (r: String)
    ensures
        r@ == srt_ingest_address(port, key@),
{
    srt_target_url(port, key).concat("&latency=200000")
}

/// The SRT address under which a stream is read, with a timeout of 30 seconds.
pub open spec fn srt_play_address(port: u16, key: Seq<char>) -> Seq<char> {
    "srt://127.0.0.1:"@ + decimal(port as nat) + "?streamid=read:live/"@ + key
        + "&timeout=30000000"@
}

/// The SRT address under which a stream is read, with a timeout of 30 seconds.
pub fn srt_play_url(port: u16, key: &str) -> (r: String)
    ensures
        r@ == srt_play_address(port, key@),
{
    "srt://127.0.0.1:".to_string().concat(decimal_text(port as u64).as_str()).concat(
        "?streamid=read:live/",
    ).concat(key).concat("&timeout=30000000")
}

/// A passphrase and the length of the key that is made of it.
pub struct SrtSecret {
    pub passphrase: String,
    pub pbkeylen: u32,
}

/// An SRT address with the secret at its end.
pub open spec fn with_secret(url: Seq<char>, secret: Option<SrtSecret>) -> Seq<char> {
    match secret {
        Some(s) => url + "&passphrase="@ + s.passphrase@ + "&pbkeylen="@ + decimal(
            s.pbkeylen as nat,
        ),
        None => url,
    }
}

fn add_secret(url: String, secret: &Option<SrtSecret>) -> (r: String)
    ensures
        r@ == with_secret(url@, *secret),
{
    match secret {
        Some(s) => url.concat("&passphrase=").concat(s.passphrase.as_str()).concat(
            "&pbkeylen=",
        ).concat(decimal_text(s.pbkeylen as u64).as_str()),
        None => url,
    }
}

/// The SRT address under which a stream is published, encrypted or not.
pub fn srt_publish_url(port: u16, stream_key: &str, crypto: &Option<SrtSecret>) -> (r: String)
    ensures
        r@ == with_secret(srt_address(port, stream_key@), *crypto),
{
    add_secret(srt_url(port, stream_key), crypto)
}

/// The SRT address under which a live stream is read.
pub open spec fn srt_live_address(port: u16, key: Seq<char>) -> Seq<char> {
    "srt://127.0.0.1:"@ + decimal(port as nat) + "?streamid=read:live/"@ + key
        + "&mode=caller&transtype=live&latency=100"@
}

/// The SRT address under which a live stream is read, encrypted or not.
pub fn srt_read_url(port: u16, stream_key: &str, crypto: &Option<SrtSecret>) -> (r: String)
    ensures
        r@ == with_secret(srt_live_address(port, stream_key@), *crypto),
{
    add_secret(
        "srt://127.0.0.1:".to_string().concat(decimal_text(port as u64).as_str()).concat(
            "?streamid=read:live/",
        ).concat(stream_key).concat("&mode=caller&transtype=live&latency=100"),
        crypto,
    )
}

// ── Laws ─────────────────────────────────────────────────────────────────────

/// Addresses on this machine are sent to by their protocol: RTMP and SRT as such, and uploads as
/// uploads.
pub proof fn addresses_route_by_their_protocol(port: u16, key: Seq<char>)
    ensures
        route_of(rtmp_address(port, key)) == Some(EgressRoute::Rtmp),
        route_of(srt_address(port, key)) == Some(EgressRoute::Srt),
        route_of(srt_target_address(port, key)) == Some(EgressRoute::Srt),
        route_of(upload_address(port, key)) == Some(EgressRoute::HlsPut),
{
    reveal_strlit("rtmp://127.0.0.1:");
    reveal_strlit("rtmp://");
    reveal_strlit("srt://127.0.0.1:");
    reveal_strlit("srt://");
    reveal_strlit("http://127.0.0.1:");
    reveal_strlit("http://");
    let a = rtmp_address(port, key);
    assert(a =~= "rtmp://"@ + a.skip(7));
    rtmp_addresses_go_to_rtmp(a.skip(7));
    let b = srt_address(port, key);
    assert(b =~= "srt://"@ + b.skip(6));
    srt_addresses_go_to_srt(b.skip(6));
    let c = srt_target_address(port, key);
    assert(c =~= "srt://"@ + c.skip(6));
    srt_addresses_go_to_srt(c.skip(6));
    let d = upload_address(port, key);
    assert(d =~= "http://"@ + d.skip(7));
    web_addresses_are_uploaded_to(d.skip(7));
}

/// Every address names the port on this machine, and the stream: one is published to and another
/// one read from, and an upload tells its channel and its playlist.
pub proof fn addresses_name_port_and_stream(port: u16, key: Seq<char>)
    ensures
        rtmp_address(port, key) == "rtmp://127.0.0.1:"@ + decimal(port as nat) + "/live/"@ + key,
        srt_address(port, key) == "srt://127.0.0.1:"@ + decimal(port as nat)
            + "?streamid=publish:live/"@ + key + "&pkt_size=1316"@,
        srt_target_address(port, key) == "srt://127.0.0.1:"@ + decimal(port as nat)
            + "?streamid=publish:live/"@ + key,
        srt_ingest_address(port, key) == srt_target_address(port, key) + "&latency=200000"@,
        srt_play_address(port, key) == "srt://127.0.0.1:"@ + decimal(port as nat)
            + "?streamid=read:live/"@ + key + "&timeout=30000000"@,
        srt_live_address(port, key) == "srt://127.0.0.1:"@ + decimal(port as nat)
            + "?streamid=read:live/"@ + key + "&mode=caller&transtype=live&latency=100"@,
        upload_address(port, key) == "http://127.0.0.1:"@ + decimal(port as nat) + "/upload?cid="@
            + key + "&copy=0&file=out.m3u8"@,
{
}

/// A secret is told behind the address, with its length, and an address without one stays as it is.
pub proof fn secrets_stand_behind_the_address(url: Seq<char>, secret: SrtSecret)
    ensures
        with_secret(url, None) == url,
        with_secret(url, Some(secret)) == url + "&passphrase="@ + secret.passphrase@ + "&pbkeylen="@
            + decimal(secret.pbkeylen as nat),
{
}

} // verus!

//! Where the FFmpeg binary is, and how the embedded one is installed.
//!
//! A path that the user gives is used as it is, and the embedded binary is not extracted. Otherwise
//! the embedded binary goes to a shared cache whose directory is named after its content, so that
//! processes of one version share it and processes of different versions do not clobber each other.
//! Installing is safe among processes: a binary is written to a file of its own and then renamed
//! into place.

use sha2::{Digest, Sha256};
use vstd::prelude::*;
use vstd::string::*;

use crate::number::{decimal, decimal_text, signed_decimal, signed_decimal_text};
use crate::path::{join_path, joined_path};
use crate::text::text_option;

verus! {

/// The SHA-256 digest of some bytes.
pub uninterp spec fn sha256(bytes: Seq<u8>) -> Seq<u8>;

/// `sha2::Sha256::digest`: 32 bytes that depend on the input alone.
#[verifier::external_body]
fn sha256_digest(bytes: &[u8]) -> (r: Vec<u8>)
    ensures
        r@ == sha256(bytes@),
        r@.len() == 32,
{
    Sha256::digest(bytes).to_vec()
}

/// The lower-case hexadecimal digit of a number below 16.
pub open spec fn hex_digit(n: int) -> char {
    if n < 10 {
        (48 + n) as char
    } else {
        (87 + n) as char
    }
}

/// Two hexadecimal digits for each byte.
pub open spec fn hex(bytes: Seq<u8>) -> Seq<char>
    decreases bytes.len(),
{
    if bytes.len() == 0 {
        Seq::empty()
    } else {
        hex(bytes.drop_last()).push(hex_digit(bytes.last() as int / 16)).push(
            hex_digit(bytes.last() as int % 16),
        )
    }
}

fn hex_digit_of(n: u8) -> (r: char)
    requires
        n < 16,
    ensures
        r == hex_digit(n as int),
{
    if n < 10 {
        (48 + n) as char
    } else {
        (87 + n) as char
    }
}

/// The first eight bytes of a digest, or all of a shorter one.
pub open spec fn key_bytes(digest: Seq<u8>) -> Seq<u8> {
    if digest.len() < 8 {
        digest
    } else {
        digest.take(8)
    }
}

/// The cache key of a binary with this digest.
pub fn cache_key_of_digest(digest: &Vec<u8>) -> (r: String)
    ensures
        r@ == hex(key_bytes(digest@)),
{
    let mut key: String = String::new();
    let mut i: usize = 0;
    assert(digest@.take(0) =~= Seq::<u8>::empty());
    while i < 8 && i < digest.len()
        invariant
            i <= 8,
            i <= digest@.len(),
            key@ == hex(digest@.take(i as int)),
        decreases 8 - i,
    {
        let byte: u8 = digest[i];
        key.push(hex_digit_of(byte / 16));
        key.push(hex_digit_of(byte % 16));
        assert(digest@.take(i + 1).drop_last() =~= digest@.take(i as int));
        i += 1;
    }
    assert(digest@.take(i as int) =~= key_bytes(digest@));
    key
}

/// Whether a text is a cache key: sixteen hexadecimal digits.
pub open spec fn is_cache_key(s: Seq<char>) -> bool {
    s.len() == 16 && forall|i: int|
        0 <= i < s.len() ==> ('0' <= #[trigger] s[i] <= '9' || 'a' <= s[i] <= 'f')
}

/// The cache key of a binary: the first eight bytes of its SHA-256 digest.
pub fn embedded_cache_key(bytes: &[u8]) -> (r: String)
    ensures
        r@ == hex(key_bytes(sha256(bytes@))),
        sha256(bytes@).len() == 32,
        is_cache_key(r@),
{
    let digest: Vec<u8> = sha256_digest(bytes);
    proof {
        cache_key_has_sixteen_digits(digest@);
    }
    cache_key_of_digest(&digest)
}

/// The directory that holds the cached binaries of all versions.
pub open spec fn cache_root(temp_dir: Seq<char>) -> Seq<char> {
    joined_path(temp_dir, "restream-ffmpeg"@)
}

/// The directory of the binary with this digest.
pub open spec fn cache_dir(temp_dir: Seq<char>, digest: Seq<u8>) -> Seq<char> {
    joined_path(cache_root(temp_dir), hex(key_bytes(digest)))
}

/// The cached binary with this digest.
pub open spec fn cached_binary(temp_dir: Seq<char>, digest: Seq<u8>) -> Seq<char> {
    joined_path(cache_dir(temp_dir, digest), "ffmpeg"@)
}

/// The directory, under the system's directory for temporary files, that holds cached binaries.
pub fn embedded_cache_root(temp_dir: &str) -> (r: String)
    ensures
        r@ == cache_root(temp_dir@),
{
    join_path(temp_dir, "restream-ffmpeg")
}

/// The directory in which a binary with these bytes is cached.
pub fn embedded_cache_dir(temp_dir: &str, bytes: &[u8]) -> (r: String)
    ensures
        r@ == cache_dir(temp_dir@, sha256(bytes@)),
        sha256(bytes@).len() == 32,
        is_cache_key(hex(key_bytes(sha256(bytes@)))),
{
    let root: String = embedded_cache_root(temp_dir);
    join_path(root.as_str(), embedded_cache_key(bytes).as_str())
}

// ── Resolving ────────────────────────────────────────────────────────────────

/// Where the binary is to come from.
pub enum FfmpegBinary {
    /// It was resolved before.
    Cached(String),
    /// The user named it.
    External(String),
    /// The embedded one, under this directory and at this path.
    Embedded { dir: String, path: String },
}

impl FfmpegBinary {
    /// The path of the binary.
    pub open spec fn location(&self) -> Seq<char> {
        match self {
            FfmpegBinary::Cached(path) => path@,
            FfmpegBinary::External(path) => path@,
            FfmpegBinary::Embedded { path, .. } => path@,
        }
    }
}

/// Where the binary comes from on the first call: the user's path as it is where one is set, else
/// the embedded binary in its cache directory.
pub fn resolve_ffmpeg_bin_path(user_path: Option<String>, temp_dir: &str, embedded: &[u8]) -> (r:
    FfmpegBinary)
    ensures
        match user_path {
            Some(path) => r == FfmpegBinary::External(path),
            None => r matches FfmpegBinary::Embedded { dir, path } && dir@ == cache_dir(
                temp_dir@,
                sha256(embedded@),
            ) && path@ == cached_binary(temp_dir@, sha256(embedded@)) && sha256(embedded@).len()
                == 32,
        },
{
    match user_path {
        Some(path) => FfmpegBinary::External(path),
        None => {
            let dir: String = embedded_cache_dir(temp_dir, embedded);
            let path: String = join_path(dir.as_str(), "ffmpeg");
            FfmpegBinary::Embedded { dir, path }
        },
    }
}

/// Where the binary of a process is: where an earlier call found it, else where the user says, else
/// in the cache.
pub open spec fn binary_at(
    resolved: Option<Seq<char>>,
    user_path: Option<Seq<char>>,
    temp_dir: Seq<char>,
    digest: Seq<u8>,
) -> Seq<char> {
    match resolved {
        Some(path) => path,
        None => match user_path {
            Some(path) => path,
            None => cached_binary(temp_dir, digest),
        },
    }
}

/// The binary that a process uses: what an earlier call resolved, else what this one resolves.
pub fn ensure_ffmpeg_extracted(
    resolved: Option<String>,
    user_path: Option<String>,
    temp_dir: &str,
    embedded: &[u8],
) -> (r: FfmpegBinary)
    ensures
        r.location() == binary_at(
            text_option(resolved),
            text_option(user_path),
            temp_dir@,
            sha256(embedded@),
        ),
        match (resolved, user_path) {
            (Some(path), _) => r == FfmpegBinary::Cached(path),
            (None, Some(path)) => r == FfmpegBinary::External(path),
            (None, None) => r matches FfmpegBinary::Embedded { dir, path } && dir@ == cache_dir(
                temp_dir@,
                sha256(embedded@),
            ) && path@ == cached_binary(temp_dir@, sha256(embedded@)) && sha256(embedded@).len()
                == 32,
        },
{
    match resolved {
        Some(path) => FfmpegBinary::Cached(path),
        None => resolve_ffmpeg_bin_path(user_path, temp_dir, embedded),
    }
}

/// The path of the binary once it has been resolved.
pub fn ffmpeg_bin_path(binary: &FfmpegBinary) -> (r: &str)
    ensures
        r@ == binary.location(),
{
    match binary {
        FfmpegBinary::Cached(path) => path.as_str(),
        FfmpegBinary::External(path) => path.as_str(),
        FfmpegBinary::Embedded { path, .. } => path.as_str(),
    }
}

/// Nothing is removed at shutdown: the cache may be in use by other processes, and a binary that
/// the user named is not ours.
pub fn cleanup_ffmpeg() {
}

// ── Installing ───────────────────────────────────────────────────────────────

/// The name of the file that a process writes before it renames it into place.
pub fn temp_file_name(pid: u32, nanos: i64) -> (r: String)
    ensures
        r@ == "ffmpeg.tmp."@ + decimal(pid as nat) + "."@ + signed_decimal(nanos as int),
{
    let mut out: String = "ffmpeg.tmp.".to_string();
    out.append(decimal_text(pid as u64).as_str());
    out.append(".");
    out.append(signed_decimal_text(nanos).as_str());
    out
}

/// How far an installation has come.
#[derive(Debug, Clone, Copy, PartialEq, Eq, Structural)]
pub enum InstallState {
    /// The cache directory exists; it is not known yet whether the binary does.
    Looking,
    /// The binary is being written to the temporary file.
    Writing,
    /// The temporary file is being made executable.
    Marking,
    /// The temporary file is being renamed into place.
    Renaming,
    /// The binary is in place.
    Installed,
    /// The binary could not be installed.
    Failed,
}

/// What came of the last action.
#[derive(Debug, Clone, Copy, PartialEq, Eq, Structural)]
pub enum InstallEvent {
    /// The binary was looked for, and is there or not.
    Looked { exists: bool },
    /// The temporary file was written, or not.
    Written { ok: bool },
    /// The temporary file was made executable, or not.
    Marked { ok: bool },
    /// The temporary file was renamed, or not; and whether the binary is there now.
    Renamed { ok: bool, exists: bool },
}

/// What to do next.
#[derive(Debug, Clone, Copy, PartialEq, Eq, Structural)]
pub enum InstallAction {
    WriteTemp,
    MarkTempExecutable,
    RenameTemp,
    /// Make the binary that is there executable, and use it.
    ReuseInstalled,
    /// Another process was faster: remove the temporary file and use the binary that is there.
    RemoveTempAndReuse,
    Finish,
    /// Give up without a temporary file to remove.
    Abort,
    /// Remove the temporary file and give up.
    RemoveTempAndAbort,
}

/// Whether an event answers what is being done in a state.
pub open spec fn answers(state: InstallState, event: InstallEvent) -> bool {
    match state {
        InstallState::Looking => event is Looked,
        InstallState::Writing => event is Written,
        InstallState::Marking => event is Marked,
        InstallState::Renaming => event is Renamed,
        InstallState::Installed => false,
        InstallState::Failed => false,
    }
}

/// The next state of an installation, and what to do.
pub open spec fn install_transition(event: InstallEvent) -> (InstallState, InstallAction) {
    match event {
        InstallEvent::Looked { exists: true } => (
            InstallState::Installed,
            InstallAction::ReuseInstalled,
        ),
        InstallEvent::Looked { exists: false } => (InstallState::Writing, InstallAction::WriteTemp),
        InstallEvent::Written { ok: true } => (
            InstallState::Marking,
            InstallAction::MarkTempExecutable,
        ),
        InstallEvent::Written { ok: false } => (InstallState::Failed, InstallAction::Abort),
        InstallEvent::Marked { ok: true } => (InstallState::Renaming, InstallAction::RenameTemp),
        InstallEvent::Marked { ok: false } => (
            InstallState::Failed,
            InstallAction::RemoveTempAndAbort,
        ),
        InstallEvent::Renamed { ok: true, .. } => (InstallState::Installed, InstallAction::Finish),
        InstallEvent::Renamed { ok: false, exists: true } => (
            InstallState::Installed,
            InstallAction::RemoveTempAndReuse,
        ),
        InstallEvent::Renamed { ok: false, exists: false } => (
            InstallState::Failed,
            InstallAction::RemoveTempAndAbort,
        ),
    }
}

/// One step of an installation.
pub fn install_step(state: InstallState, event: InstallEvent) -> (r: (InstallState, InstallAction))
    requires
        answers(state, event),
    ensures
        r == install_transition(event),
{
    match event {
        InstallEvent::Looked { exists } => if exists {
            (InstallState::Installed, InstallAction::ReuseInstalled)
        } else {
            (InstallState::Writing, InstallAction::WriteTemp)
        },
        InstallEvent::Written { ok } => if ok {
            (InstallState::Marking, InstallAction::MarkTempExecutable)
        } else {
            (InstallState::Failed, InstallAction::Abort)
        },
        InstallEvent::Marked { ok } => if ok {
            (InstallState::Renaming, InstallAction::RenameTemp)
        } else {
            (InstallState::Failed, InstallAction::RemoveTempAndAbort)
        },
        InstallEvent::Renamed { ok, exists } => if ok {
            (InstallState::Installed, InstallAction::Finish)
        } else if exists {
            (InstallState::Installed, InstallAction::RemoveTempAndReuse)
        } else {
            (InstallState::Failed, InstallAction::RemoveTempAndAbort)
        },
    }
}

// ── Laws ─────────────────────────────────────────────────────────────────────

/// Two digits for each byte.
pub proof fn hex_has_two_digits_per_byte(bytes: Seq<u8>)
    ensures
        hex(bytes).len() == 2 * bytes.len(),
    decreases bytes.len(),
{
    if bytes.len() > 0 {
        hex_has_two_digits_per_byte(bytes.drop_last());
    }
}

/// Different bytes are written differently.
pub proof fn hex_is_injective(a: Seq<u8>, b: Seq<u8>)
    requires
        hex(a) == hex(b),
    ensures
        a == b,
    decreases a.len(),
{
    hex_has_two_digits_per_byte(a);
    hex_has_two_digits_per_byte(b);
    if a.len() > 0 {
        let (x, y) = (hex(a), hex(b));
        let (p, q) = (hex(a.drop_last()), hex(b.drop_last()));
        assert(x.take(x.len() - 2) =~= p);
        assert(y.take(y.len() - 2) =~= q);
        hex_is_injective(a.drop_last(), b.drop_last());
        assert(x[x.len() - 2] == hex_digit(a.last() as int / 16));
        assert(y[y.len() - 2] == hex_digit(b.last() as int / 16));
        assert(x.last() == hex_digit(a.last() as int % 16));
        assert(y.last() == hex_digit(b.last() as int % 16));
        assert(a.last() == b.last());
        assert(a =~= a.drop_last().push(a.last()));
        assert(b =~= b.drop_last().push(b.last()));
    } else {
        assert(a =~= b);
    }
}

/// Binaries share a cache directory exactly when the first eight bytes of their digests agree; so
/// binaries with the same bytes always do.
pub proof fn cache_dir_follows_content(temp_dir: Seq<char>, a: Seq<u8>, b: Seq<u8>)
    requires
        a.len() == 32,
        b.len() == 32,
    ensures
        cache_dir(temp_dir, a) == cache_dir(temp_dir, b) <==> a.take(8) == b.take(8),
{
    let (ka, kb) = (hex(key_bytes(a)), hex(key_bytes(b)));
    let root = cache_root(temp_dir);
    lemma_hex_is_of_digits(key_bytes(a));
    lemma_hex_is_of_digits(key_bytes(b));
    hex_has_two_digits_per_byte(key_bytes(a));
    hex_has_two_digits_per_byte(key_bytes(b));
    if cache_dir(temp_dir, a) == cache_dir(temp_dir, b) {
        let (x, y) = (cache_dir(temp_dir, a), cache_dir(temp_dir, b));
        assert(x.skip(x.len() - 16) =~= ka);
        assert(y.skip(y.len() - 16) =~= kb);
        hex_is_injective(key_bytes(a), key_bytes(b));
    }
}

proof fn lemma_hex_is_of_digits(bytes: Seq<u8>)
    ensures
        forall|i: int|
            0 <= i < hex(bytes).len() ==> ('0' <= #[trigger] hex(bytes)[i] <= '9' || 'a'
                <= hex(bytes)[i] <= 'f'),
    decreases bytes.len(),
{
    if bytes.len() > 0 {
        lemma_hex_is_of_digits(bytes.drop_last());
        let front = hex(bytes.drop_last());
        assert forall|i: int| 0 <= i < hex(bytes).len() implies ('0' <= #[trigger] hex(bytes)[i]
            <= '9' || 'a' <= hex(bytes)[i] <= 'f') by {
            if i < front.len() {
                assert(hex(bytes)[i] == front[i]);
            }
        }
    }
}

/// A cache directory is named by sixteen hexadecimal digits, whatever the binary.
pub proof fn cache_key_has_sixteen_digits(digest: Seq<u8>)
    requires
        digest.len() == 32,
    ensures
        is_cache_key(hex(key_bytes(digest))),
{
    hex_has_two_digits_per_byte(key_bytes(digest));
    lemma_hex_is_of_digits(key_bytes(digest));
}

/// A temporary file that was written is renamed into place or removed: from the write on, every
/// action either goes on towards the rename, or finishes it, or removes the file.
pub proof fn temp_file_never_stays(state: InstallState, event: InstallEvent)
    requires
        answers(state, event),
        state == InstallState::Marking || state == InstallState::Renaming,
    ensures
        match install_transition(event) {
            (InstallState::Renaming, action) => action == InstallAction::RenameTemp,
            (InstallState::Installed, InstallAction::Finish) => event matches InstallEvent::Renamed {
                ok: true,
                ..
            },
            (InstallState::Installed, action) => action == InstallAction::RemoveTempAndReuse,
            (InstallState::Failed, action) => action == InstallAction::RemoveTempAndAbort,
            _ => false,
        },
{
}

/// A binary that is there is used as it is; one that is not is written, made executable and renamed,
/// each only once the step before has succeeded.
pub proof fn installation_goes_on_only_after_success(exists: bool)
    ensures
        install_transition(InstallEvent::Looked { exists: true }) == (
            InstallState::Installed,
            InstallAction::ReuseInstalled,
        ),
        install_transition(InstallEvent::Looked { exists: false }) == (
            InstallState::Writing,
            InstallAction::WriteTemp,
        ),
        install_transition(InstallEvent::Written { ok: true }) == (
            InstallState::Marking,
            InstallAction::MarkTempExecutable,
        ),
        install_transition(InstallEvent::Marked { ok: true }) == (
            InstallState::Renaming,
            InstallAction::RenameTemp,
        ),
        install_transition(InstallEvent::Renamed { ok: true, exists }) == (
            InstallState::Installed,
            InstallAction::Finish,
        ),
        install_transition(InstallEvent::Written { ok: false }).0 == InstallState::Failed,
        install_transition(InstallEvent::Marked { ok: false }).0 == InstallState::Failed,
        install_transition(InstallEvent::Renamed { ok: false, exists: false }).0
            == InstallState::Failed,
        install_transition(InstallEvent::Renamed { ok: false, exists: true }).0
            == InstallState::Installed,
{
}

/// A digit stands for its number: the letters from `a` to `f` for those from ten on.
pub proof fn hex_digits_stand_for_their_numbers(n: int)
    requires
        0 <= n < 16,
    ensures
        n < 10 ==> hex_digit(n) as int == '0' as int + n,
        n >= 10 ==> hex_digit(n) as int == 'a' as int + n - 10,
{
}

/// The binary is cached as `ffmpeg` in a directory of its digest, in one that all versions share.
pub proof fn binary_is_cached_under_its_digest(temp_dir: Seq<char>, digest: Seq<u8>)
    ensures
        cached_binary(temp_dir, digest) == joined_path(
            joined_path(joined_path(temp_dir, "restream-ffmpeg"@), hex(key_bytes(digest))),
            "ffmpeg"@,
        ),
        digest.len() >= 8 ==> key_bytes(digest) == digest.take(8),
{
}

/// A binary that was resolved stays; the user's comes before the embedded one, as it is; and the
/// embedded one lies under the directory for temporary files, wherever that is.
pub proof fn binaries_are_resolved_in_order(
    path: Seq<char>,
    user_path: Option<Seq<char>>,
    temp_dir: Seq<char>,
    digest: Seq<u8>,
)
    ensures
        binary_at(Some(path), user_path, temp_dir, digest) == path,
        binary_at(None, Some(path), temp_dir, digest) == path,
        binary_at(None, None, temp_dir, digest) == cached_binary(temp_dir, digest),
{
}

} // verus!

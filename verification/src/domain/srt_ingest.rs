//! Domain model for SRT ingest security policy and resolution.
//!
//! A server has one global policy; a pipeline inherits it, or sets its own.

use vstd::prelude::*;
use vstd::utf8::encode_utf8;

use crate::text::{copy_option, lemma_trimmed_idempotent, text_option, trim, trimmed};

verus! {

pub const DEFAULT_SRT_PBKEYLEN: i32 = 16;

#[derive(Debug, Clone, Copy, PartialEq, Eq, Structural)]
pub enum SrtGlobalIngestMode {
    Plaintext,
    Encrypted,
}

#[derive(Debug, Clone, PartialEq, Eq)]
pub struct SrtGlobalIngestConfig {
    pub mode: SrtGlobalIngestMode,
    pub passphrase: Option<String>,
    pub pbkeylen: i32,
}

#[derive(Debug, Clone, Copy, PartialEq, Eq, Structural)]
pub enum SrtPipelineIngestMode {
    Inherit,
    Plaintext,
    Encrypted,
}

#[derive(Debug, Clone, PartialEq, Eq)]
pub struct SrtPipelineIngestConfig {
    pub mode: SrtPipelineIngestMode,
    pub passphrase: Option<String>,
    pub pbkeylen: Option<i32>,
}

#[derive(Debug, Clone, PartialEq, Eq)]
pub enum ResolvedSrtIngestConfig {
    Plaintext,
    Encrypted { passphrase: String, pbkeylen: i32 },
}

/// What a global policy says.
pub struct SrtGlobalIngestModel {
    pub mode: SrtGlobalIngestMode,
    pub passphrase: Option<Seq<char>>,
    pub pbkeylen: i32,
}

/// What a pipeline's policy says.
pub struct SrtPipelineIngestModel {
    pub mode: SrtPipelineIngestMode,
    pub passphrase: Option<Seq<char>>,
    pub pbkeylen: Option<i32>,
}

/// What a resolved policy says.
pub enum ResolvedSrtIngestModel {
    Plaintext,
    Encrypted { passphrase: Seq<char>, pbkeylen: i32 },
}

impl View for SrtGlobalIngestConfig {
    type V = SrtGlobalIngestModel;

    open spec fn view(&self) -> SrtGlobalIngestModel {
        SrtGlobalIngestModel {
            mode: self.mode,
            passphrase: text_option(self.passphrase),
            pbkeylen: self.pbkeylen,
        }
    }
}

impl View for SrtPipelineIngestConfig {
    type V = SrtPipelineIngestModel;

    open spec fn view(&self) -> SrtPipelineIngestModel {
        SrtPipelineIngestModel {
            mode: self.mode,
            passphrase: text_option(self.passphrase),
            pbkeylen: self.pbkeylen,
        }
    }
}

impl View for ResolvedSrtIngestConfig {
    type V = ResolvedSrtIngestModel;

    open spec fn view(&self) -> ResolvedSrtIngestModel {
        match self {
            ResolvedSrtIngestConfig::Plaintext => ResolvedSrtIngestModel::Plaintext,
            ResolvedSrtIngestConfig::Encrypted { passphrase, pbkeylen } =>
                ResolvedSrtIngestModel::Encrypted { passphrase: passphrase@, pbkeylen: *pbkeylen },
        }
    }
}

// ── Rules ────────────────────────────────────────────────────────────────────

/// The key lengths that SRT knows.
pub open spec fn valid_pbkeylen(pbkeylen: i32) -> bool {
    pbkeylen == 16 || pbkeylen == 24 || pbkeylen == 32
}

/// The lengths of passphrase that SRT takes, in bytes of UTF-8.
pub open spec fn valid_passphrase(passphrase: Seq<char>) -> bool {
    10 <= encode_utf8(passphrase).len() <= 79
}

/// The passphrase without the white space around it; none where nothing is left.
pub open spec fn secret(passphrase: Option<Seq<char>>) -> Option<Seq<char>> {
    match passphrase {
        Some(p) => if trimmed(p).len() == 0 {
            None
        } else {
            Some(trimmed(p))
        },
        None => None,
    }
}

/// A key length that is not set is the default one.
pub open spec fn pbkeylen_or_default(pbkeylen: Option<i32>) -> i32 {
    match pbkeylen {
        Some(n) => n,
        None => DEFAULT_SRT_PBKEYLEN,
    }
}

impl SrtGlobalIngestModel {
    /// Why the policy is refused.
    pub open spec fn refusal(self) -> Option<Seq<char>> {
        if !valid_pbkeylen(self.pbkeylen) {
            Some("SRT pbkeylen must be 16, 24, or 32"@)
        } else if self.mode == SrtGlobalIngestMode::Plaintext {
            None
        } else {
            match secret(self.passphrase) {
                None => Some("SRT encrypted mode requires a passphrase"@),
                Some(p) => if valid_passphrase(p) {
                    None
                } else {
                    Some("SRT passphrase must be 10-79 bytes"@)
                },
            }
        }
    }

    /// The policy as it is kept: a refused one unchanged, a plaintext one without a passphrase, an
    /// encrypted one with its passphrase trimmed.
    pub open spec fn validated(self) -> SrtGlobalIngestModel {
        if self.refusal() is Some {
            self
        } else if self.mode == SrtGlobalIngestMode::Plaintext {
            SrtGlobalIngestModel { passphrase: None, ..self }
        } else {
            SrtGlobalIngestModel { passphrase: secret(self.passphrase), ..self }
        }
    }

    /// What the policy asks of an ingest, or why it asks nothing that can be met.
    pub open spec fn resolved(self) -> Result<ResolvedSrtIngestModel, Seq<char>> {
        if self.mode == SrtGlobalIngestMode::Plaintext {
            Ok(ResolvedSrtIngestModel::Plaintext)
        } else {
            match self.passphrase {
                None => Err("missing SRT passphrase"@),
                Some(passphrase) => if valid_pbkeylen(self.pbkeylen) {
                    Ok(ResolvedSrtIngestModel::Encrypted { passphrase, pbkeylen: self.pbkeylen })
                } else {
                    Err("SRT pbkeylen must be 16, 24, or 32"@)
                },
            }
        }
    }
}

impl SrtPipelineIngestModel {
    /// Why the policy is refused.
    pub open spec fn refusal(self) -> Option<Seq<char>> {
        if self.mode != SrtPipelineIngestMode::Encrypted {
            None
        } else {
            match secret(self.passphrase) {
                None => Some("Per-pipeline encrypted SRT ingest requires a passphrase"@),
                Some(p) => if !valid_passphrase(p) {
                    Some("SRT passphrase must be 10-79 bytes"@)
                } else if !valid_pbkeylen(pbkeylen_or_default(self.pbkeylen)) {
                    Some("SRT pbkeylen must be 16, 24, or 32"@)
                } else {
                    None
                },
            }
        }
    }

    /// The policy as it is kept. Only an encrypted one holds a passphrase and a key length; one
    /// that is refused for its key length alone has had its passphrase trimmed.
    pub open spec fn validated(self) -> SrtPipelineIngestModel {
        if self.mode != SrtPipelineIngestMode::Encrypted {
            SrtPipelineIngestModel { passphrase: None, pbkeylen: None, ..self }
        } else {
            match secret(self.passphrase) {
                None => self,
                Some(p) => if !valid_passphrase(p) {
                    self
                } else if !valid_pbkeylen(pbkeylen_or_default(self.pbkeylen)) {
                    SrtPipelineIngestModel { passphrase: Some(p), ..self }
                } else {
                    SrtPipelineIngestModel {
                        passphrase: Some(p),
                        pbkeylen: Some(pbkeylen_or_default(self.pbkeylen)),
                        ..self
                    }
                },
            }
        }
    }

    /// What the policy, over the global one, asks of an ingest.
    pub open spec fn resolved(self, global: SrtGlobalIngestModel) -> Result<
        ResolvedSrtIngestModel,
        Seq<char>,
    > {
        match self.mode {
            SrtPipelineIngestMode::Inherit => global.resolved(),
            SrtPipelineIngestMode::Plaintext => Ok(ResolvedSrtIngestModel::Plaintext),
            SrtPipelineIngestMode::Encrypted => match self.passphrase {
                None => Err("missing per-pipeline SRT passphrase"@),
                Some(passphrase) => if valid_pbkeylen(pbkeylen_or_default(self.pbkeylen)) {
                    Ok(
                        ResolvedSrtIngestModel::Encrypted {
                            passphrase,
                            pbkeylen: pbkeylen_or_default(self.pbkeylen),
                        },
                    )
                } else {
                    Err("SRT pbkeylen must be 16, 24, or 32"@)
                },
            },
        }
    }
}

/// The outcome of resolving, over the texts' characters.
pub open spec fn resolution(r: Result<ResolvedSrtIngestConfig, String>) -> Result<
    ResolvedSrtIngestModel,
    Seq<char>,
> {
    match r {
        Ok(config) => Ok(config@),
        Err(message) => Err(message@),
    }
}

/// The outcome of validating: why it failed, if it did.
pub open spec fn refusal_of(r: Result<(), String>) -> Option<Seq<char>> {
    match r {
        Ok(_) => None,
        Err(message) => Some(message@),
    }
}

// ── Code ─────────────────────────────────────────────────────────────────────

fn default_srt_pbkeylen() -> (r: i32)
    ensures
        r == DEFAULT_SRT_PBKEYLEN,
{
    DEFAULT_SRT_PBKEYLEN
}

fn validate_srt_passphrase(passphrase: &str) -> (r: Result<(), String>)
    ensures
        match r {
            Ok(_) => valid_passphrase(passphrase@),
            Err(message) => !valid_passphrase(passphrase@) && message@
                == "SRT passphrase must be 10-79 bytes"@,
        },
{
    let len: usize = passphrase.as_bytes().len();
    if !(10 <= len && len <= 79) {
        return Err("SRT passphrase must be 10-79 bytes".to_string());
    }
    Ok(())
}

fn normalize_srt_pbkeylen(pbkeylen: i32) -> (r: Result<i32, String>)
    ensures
        match r {
            Ok(n) => valid_pbkeylen(pbkeylen) && n == pbkeylen,
            Err(message) => !valid_pbkeylen(pbkeylen) && message@
                == "SRT pbkeylen must be 16, 24, or 32"@,
        },
{
    match pbkeylen {
        16 | 24 | 32 => Ok(pbkeylen),
        _ => Err("SRT pbkeylen must be 16, 24, or 32".to_string()),
    }
}

fn secret_of(passphrase: &Option<String>) -> (r: Option<String>)
    ensures
        text_option(r) == secret(text_option(*passphrase)),
{
    match passphrase {
        Some(p) => {
            let t: String = trim(p.as_str());
            if t.as_str().is_empty() {
                None
            } else {
                Some(t)
            }
        },
        None => None,
    }
}

impl Default for SrtGlobalIngestConfig {
    fn default() -> (r: Self)
        ensures
            r.mode == SrtGlobalIngestMode::Plaintext,
            r.passphrase is None,
            r.pbkeylen == DEFAULT_SRT_PBKEYLEN,
    {
        SrtGlobalIngestConfig {
            mode: SrtGlobalIngestMode::Plaintext,
            passphrase: None,
            pbkeylen: default_srt_pbkeylen(),
        }
    }
}

impl Default for SrtPipelineIngestConfig {
    fn default() -> (r: Self)
        ensures
            r.mode == SrtPipelineIngestMode::Inherit,
            r.passphrase is None,
            r.pbkeylen is None,
    {
        SrtPipelineIngestConfig {
            mode: SrtPipelineIngestMode::Inherit,
            passphrase: None,
            pbkeylen: None,
        }
    }
}

impl SrtGlobalIngestConfig {
    /// Checks the policy, and brings it into the form in which it is kept.
    pub fn validate(&mut self) -> (r: Result<(), String>)
        ensures
            refusal_of(r) == old(self)@.refusal(),
            final(self)@ == old(self)@.validated(),
    {
        match normalize_srt_pbkeylen(self.pbkeylen) {
            Ok(n) => {
                self.pbkeylen = n;
            },
            Err(message) => {
                return Err(message);
            },
        }
        match self.mode {
            SrtGlobalIngestMode::Plaintext => {
                self.passphrase = None;
            },
            SrtGlobalIngestMode::Encrypted => {
                let passphrase: String = match secret_of(&self.passphrase) {
                    Some(p) => p,
                    None => {
                        return Err("SRT encrypted mode requires a passphrase".to_string());
                    },
                };
                if let Err(message) = validate_srt_passphrase(passphrase.as_str()) {
                    return Err(message);
                }
                self.passphrase = Some(passphrase);
            },
        }
        Ok(())
    }

    /// What the policy asks of an ingest.
    pub fn resolve(&self) -> (r: Result<ResolvedSrtIngestConfig, String>)
        ensures
            resolution(r) == self@.resolved(),
    {
        match self.mode {
            SrtGlobalIngestMode::Plaintext => Ok(ResolvedSrtIngestConfig::Plaintext),
            SrtGlobalIngestMode::Encrypted => {
                let passphrase: String = match copy_option(&self.passphrase) {
                    Some(p) => p,
                    None => {
                        return Err("missing SRT passphrase".to_string());
                    },
                };
                match normalize_srt_pbkeylen(self.pbkeylen) {
                    Ok(pbkeylen) => Ok(ResolvedSrtIngestConfig::Encrypted { passphrase, pbkeylen }),
                    Err(message) => Err(message),
                }
            },
        }
    }
}

impl SrtPipelineIngestConfig {
    /// Checks the policy, and brings it into the form in which it is kept.
    pub fn validate(&mut self) -> (r: Result<(), String>)
        ensures
            refusal_of(r) == old(self)@.refusal(),
            final(self)@ == old(self)@.validated(),
    {
        match self.mode {
            SrtPipelineIngestMode::Inherit | SrtPipelineIngestMode::Plaintext => {
                self.passphrase = None;
                self.pbkeylen = None;
            },
            SrtPipelineIngestMode::Encrypted => {
                let passphrase: String = match secret_of(&self.passphrase) {
                    Some(p) => p,
                    None => {
                        return Err(
                            "Per-pipeline encrypted SRT ingest requires a passphrase".to_string(),
                        );
                    },
                };
                if let Err(message) = validate_srt_passphrase(passphrase.as_str()) {
                    return Err(message);
                }
                self.passphrase = Some(passphrase);
                match normalize_srt_pbkeylen(self.pbkeylen.unwrap_or(DEFAULT_SRT_PBKEYLEN)) {
                    Ok(n) => {
                        self.pbkeylen = Some(n);
                    },
                    Err(message) => {
                        return Err(message);
                    },
                }
            },
        }
        Ok(())
    }

    /// What the policy, over the global one, asks of an ingest.
    pub fn resolve(&self, global: &SrtGlobalIngestConfig) -> (r: Result<
        ResolvedSrtIngestConfig,
        String,
    >)
        ensures
            resolution(r) == self@.resolved(global@),
    {
        match self.mode {
            SrtPipelineIngestMode::Inherit => global.resolve(),
            SrtPipelineIngestMode::Plaintext => Ok(ResolvedSrtIngestConfig::Plaintext),
            SrtPipelineIngestMode::Encrypted => {
                let passphrase: String = match copy_option(&self.passphrase) {
                    Some(p) => p,
                    None => {
                        return Err("missing per-pipeline SRT passphrase".to_string());
                    },
                };
                match normalize_srt_pbkeylen(self.pbkeylen.unwrap_or(DEFAULT_SRT_PBKEYLEN)) {
                    Ok(pbkeylen) => Ok(ResolvedSrtIngestConfig::Encrypted { passphrase, pbkeylen }),
                    Err(message) => Err(message),
                }
            },
        }
    }
}

// ── Laws ─────────────────────────────────────────────────────────────────────

/// A secret is its own secret.
proof fn lemma_secret_idempotent(p: Option<Seq<char>>)
    ensures
        secret(secret(p)) == secret(p),
{
    if let Some(s) = p {
        lemma_trimmed_idempotent(s);
    }
}

/// A global policy that was accepted is accepted again, and validating it again changes nothing.
pub proof fn global_validation_is_stable(m: SrtGlobalIngestModel)
    requires
        m.refusal() is None,
    ensures
        m.validated().refusal() is None,
        m.validated().validated() == m.validated(),
{
    lemma_secret_idempotent(m.passphrase);
}

/// A pipeline policy that was accepted is accepted again, and validating it again changes nothing.
pub proof fn pipeline_validation_is_stable(m: SrtPipelineIngestModel)
    requires
        m.refusal() is None,
    ensures
        m.validated().refusal() is None,
        m.validated().validated() == m.validated(),
{
    lemma_secret_idempotent(m.passphrase);
}

/// A global policy that was accepted resolves: to plaintext without keeping a passphrase, or to
/// encryption with a passphrase and a key length that SRT takes.
pub proof fn accepted_global_policy_resolves(m: SrtGlobalIngestModel)
    requires
        m.refusal() is None,
    ensures
        match m.validated().resolved() {
            Ok(ResolvedSrtIngestModel::Plaintext) => m.mode == SrtGlobalIngestMode::Plaintext
                && m.validated().passphrase is None,
            Ok(ResolvedSrtIngestModel::Encrypted { passphrase, pbkeylen }) => m.mode
                == SrtGlobalIngestMode::Encrypted && valid_passphrase(passphrase) && valid_pbkeylen(
                pbkeylen,
            ),
            Err(_) => false,
        },
{
}

/// A pipeline that encrypts or refuses encryption by its own policy does not depend on the global
/// policy; one that inherits gets exactly what the global policy resolves to.
pub proof fn pipeline_policy_overrides_or_inherits(
    m: SrtPipelineIngestModel,
    g1: SrtGlobalIngestModel,
    g2: SrtGlobalIngestModel,
)
    ensures
        m.mode == SrtPipelineIngestMode::Inherit ==> m.resolved(g1) == g1.resolved(),
        m.mode != SrtPipelineIngestMode::Inherit ==> m.resolved(g1) == m.resolved(g2),
{
}

/// A pipeline policy that was accepted resolves whenever the global policy was accepted too, and
/// an encrypted result always holds a passphrase and a key length that SRT takes.
pub proof fn accepted_policies_resolve(m: SrtPipelineIngestModel, g: SrtGlobalIngestModel)
    requires
        m.refusal() is None,
        g.refusal() is None,
    ensures
        match m.validated().resolved(g.validated()) {
            Ok(ResolvedSrtIngestModel::Plaintext) => true,
            Ok(ResolvedSrtIngestModel::Encrypted { passphrase, pbkeylen }) => valid_passphrase(
                passphrase,
            ) && valid_pbkeylen(pbkeylen),
            Err(_) => false,
        },
{
}

/// Whether SRT can encrypt with a passphrase: what is left of it without the white space around it
/// has 10 to 79 bytes.
pub open spec fn usable(passphrase: Option<Seq<char>>) -> bool {
    passphrase is Some && trimmed(passphrase->0).len() > 0 && 10 <= encode_utf8(
        trimmed(passphrase->0),
    ).len() && encode_utf8(trimmed(passphrase->0)).len() <= 79
}

/// A global policy is accepted exactly when its key length is 16, 24 or 32 and it does not encrypt
/// or has a usable passphrase. It keeps its mode and its key length; of its passphrase it keeps what
/// stands between the white space where it encrypts, and nothing where it does not.
pub proof fn global_policy_is_accepted_iff_usable(m: SrtGlobalIngestModel)
    ensures
        m.refusal() is None <==> (m.pbkeylen == 16 || m.pbkeylen == 24 || m.pbkeylen == 32) && (
        m.mode == SrtGlobalIngestMode::Plaintext || usable(m.passphrase)),
        m.validated().mode == m.mode && m.validated().pbkeylen == m.pbkeylen,
        m.refusal() is None && m.mode == SrtGlobalIngestMode::Plaintext ==> m.validated().passphrase
            is None,
        m.refusal() is None && m.mode == SrtGlobalIngestMode::Encrypted ==> m.validated().passphrase
            == Some(trimmed(m.passphrase->0)),
        m.refusal() is Some ==> m.validated() == m,
{
}

/// A pipeline's policy is accepted exactly when it does not encrypt, or has a usable passphrase and
/// a key length of 16, 24 or 32, or none, which stands for 16. An accepted one keeps its mode; only
/// one that encrypts keeps a passphrase and a key length.
pub proof fn pipeline_policy_is_accepted_iff_usable(m: SrtPipelineIngestModel)
    ensures
        m.refusal() is None <==> m.mode != SrtPipelineIngestMode::Encrypted || (usable(m.passphrase)
            && (m.pbkeylen is None || m.pbkeylen == Some(16i32) || m.pbkeylen == Some(24i32)
            || m.pbkeylen == Some(32i32))),
        m.validated().mode == m.mode,
        m.mode != SrtPipelineIngestMode::Encrypted ==> m.validated().passphrase is None
            && m.validated().pbkeylen is None,
        m.refusal() is None && m.mode == SrtPipelineIngestMode::Encrypted ==> {
            &&& m.validated().passphrase == Some(trimmed(m.passphrase->0))
            &&& m.pbkeylen is Some ==> m.validated().pbkeylen == m.pbkeylen
            &&& m.pbkeylen is None ==> m.validated().pbkeylen == Some(16i32)
        },
{
}

/// A policy that encrypts asks for its own passphrase and key length; one that does not asks for
/// plaintext, whatever else it holds.
pub proof fn policies_ask_for_what_they_hold(
    g: SrtGlobalIngestModel,
    m: SrtPipelineIngestModel,
    secret: Seq<char>,
    pbkeylen: i32,
)
    requires
        pbkeylen == 16 || pbkeylen == 24 || pbkeylen == 32,
    ensures
        g.mode == SrtGlobalIngestMode::Plaintext ==> g.resolved() == Ok::<_, Seq<char>>(
            ResolvedSrtIngestModel::Plaintext,
        ),
        g == (SrtGlobalIngestModel {
            mode: SrtGlobalIngestMode::Encrypted,
            passphrase: Some(secret),
            pbkeylen,
        }) ==> g.resolved() == Ok::<_, Seq<char>>(
            ResolvedSrtIngestModel::Encrypted { passphrase: secret, pbkeylen },
        ),
        g.mode == SrtGlobalIngestMode::Encrypted && g.passphrase is None ==> g.resolved() is Err,
        m.mode == SrtPipelineIngestMode::Plaintext ==> m.resolved(g) == Ok::<_, Seq<char>>(
            ResolvedSrtIngestModel::Plaintext,
        ),
        m == (SrtPipelineIngestModel {
            mode: SrtPipelineIngestMode::Encrypted,
            passphrase: Some(secret),
            pbkeylen: Some(pbkeylen),
        }) ==> m.resolved(g) == Ok::<_, Seq<char>>(
            ResolvedSrtIngestModel::Encrypted { passphrase: secret, pbkeylen },
        ),
        m == (SrtPipelineIngestModel {
            mode: SrtPipelineIngestMode::Encrypted,
            passphrase: Some(secret),
            pbkeylen: None,
        }) ==> m.resolved(g) == Ok::<_, Seq<char>>(
            ResolvedSrtIngestModel::Encrypted { passphrase: secret, pbkeylen: 16 },
        ),
        m.mode == SrtPipelineIngestMode::Encrypted && m.passphrase is None ==> m.resolved(g) is Err,
{
}

} // verus!

//! The scenario of the ingest policy: who may publish and read, with which secret.

use vstd::prelude::*;
use vstd::string::*;

use crate::harness::urls::{
    srt_address, srt_live_address, srt_publish_url, srt_read_url, with_secret, SrtSecret,
};
use crate::json::Json;
use crate::number::decimal;
use crate::record::{is_record, Cell, Record};

verus! {

/// What the server or a pipeline is told of encryption.
#[derive(Debug, Clone)]
pub enum PolicySetting {
    /// As the server is set.
    Inherit,
    Plaintext,
    Encrypted { passphrase: String, pbkeylen: u32 },
}

pub enum SettingModel {
    Inherit,
    Plaintext,
    Encrypted { passphrase: Seq<char>, pbkeylen: u32 },
}

impl View for PolicySetting {
    type V = SettingModel;

    open spec fn view(&self) -> SettingModel {
        match self {
            PolicySetting::Inherit => SettingModel::Inherit,
            PolicySetting::Plaintext => SettingModel::Plaintext,
            PolicySetting::Encrypted { passphrase, pbkeylen } => SettingModel::Encrypted {
                passphrase: passphrase@,
                pbkeylen: *pbkeylen,
            },
        }
    }
}

/// One step of the scenario.
#[derive(Debug, Clone)]
pub enum PolicyStep {
    /// Set what holds for pipelines that inherit.
    SetGlobal { setting: PolicySetting },
    /// Create a pipeline; its stream key is its name unless another is given.
    CreatePipeline { name: String, stream_key: String, setting: PolicySetting },
    Publish { url: String },
    AwaitLive { secs: u64 },
    /// Read the stream, and find one video and audio in it.
    ReadMedia { url: String, label: String },
    /// Try to read the stream, and fail.
    ReadRefused { url: String, label: String, told_as: &'static str },
    StopPublisher,
    AwaitOff { secs: u64 },
    /// Try to publish, and find after a while that nothing came in.
    PublishRefused {
        url: String,
        label: String,
        /// After how long it is looked whether something came in, and for how long.
        after_secs: u64,
        live_secs: u64,
        /// In what time the input has to be off afterwards.
        off_secs: u64,
    },
    /// Note that a part of the scenario passed.
    Passed { label: String },
}

pub enum PolicyModel {
    SetGlobal { setting: SettingModel },
    CreatePipeline { name: Seq<char>, stream_key: Seq<char>, setting: SettingModel },
    Publish { url: Seq<char> },
    AwaitLive { secs: u64 },
    ReadMedia { url: Seq<char>, label: Seq<char> },
    ReadRefused { url: Seq<char>, label: Seq<char>, told_as: Seq<char> },
    StopPublisher,
    AwaitOff { secs: u64 },
    PublishRefused {
        url: Seq<char>,
        label: Seq<char>,
        after_secs: u64,
        live_secs: u64,
        off_secs: u64,
    },
    Passed { label: Seq<char> },
}

impl View for PolicyStep {
    type V = PolicyModel;

    open spec fn view(&self) -> PolicyModel {
        match self {
            PolicyStep::SetGlobal { setting } => PolicyModel::SetGlobal { setting: setting@ },
            PolicyStep::CreatePipeline { name, stream_key, setting } => PolicyModel::CreatePipeline {
                name: name@,
                stream_key: stream_key@,
                setting: setting@,
            },
            PolicyStep::Publish { url } => PolicyModel::Publish { url: url@ },
            PolicyStep::AwaitLive { secs } => PolicyModel::AwaitLive { secs: *secs },
            PolicyStep::ReadMedia { url, label } => PolicyModel::ReadMedia {
                url: url@,
                label: label@,
            },
            PolicyStep::ReadRefused { url, label, told_as } => PolicyModel::ReadRefused {
                url: url@,
                label: label@,
                told_as: told_as@,
            },
            PolicyStep::StopPublisher => PolicyModel::StopPublisher,
            PolicyStep::AwaitOff { secs } => PolicyModel::AwaitOff { secs: *secs },
            PolicyStep::PublishRefused { url, label, after_secs, live_secs, off_secs } =>
                PolicyModel::PublishRefused {
                url: url@,
                label: label@,
                after_secs: *after_secs,
                live_secs: *live_secs,
                off_secs: *off_secs,
            },
            PolicyStep::Passed { label } => PolicyModel::Passed { label: label@ },
        }
    }
}

pub open spec fn policy_steps(v: Seq<PolicyStep>) -> Seq<PolicyModel> {
    v.map_values(|s: PolicyStep| s@)
}

/// A secret of this passphrase and length.
pub open spec fn secret_at(url: Seq<char>, passphrase: Seq<char>, pbkeylen: u32) -> Seq<char> {
    url + "&passphrase="@ + passphrase + "&pbkeylen="@ + decimal(pbkeylen as nat)
}

fn secret(passphrase: &str, pbkeylen: u32) -> (r: Option<SrtSecret>)
    ensures
        forall|url: Seq<char>| #[trigger] with_secret(url, r) == secret_at(url, passphrase@, pbkeylen),
{
    Some(SrtSecret { passphrase: passphrase.to_string(), pbkeylen })
}

fn no_secret() -> (r: Option<SrtSecret>)
    ensures
        forall|url: Seq<char>| #[trigger] with_secret(url, r) == url,
{
    None
}

fn add_step(plan: &mut Vec<PolicyStep>, step: PolicyStep)
    ensures
        policy_steps(final(plan)@) == policy_steps(old(plan)@).push(step@),
{
    let ghost before = plan@;
    plan.push(step);
    assert(policy_steps(plan@) =~= policy_steps(before).push(step@));
}

/// A pipeline that is open to all, by its own policy or by the server's.
pub open spec fn open_part(
    s: Seq<PolicyModel>,
    port: u16,
    key: Seq<char>,
    setting: SettingModel,
    label: Seq<char>,
    part: Seq<char>,
) -> Seq<PolicyModel> {
    s.push(PolicyModel::CreatePipeline { name: key, stream_key: key, setting }).push(
        PolicyModel::Publish { url: srt_address(port, key) },
    ).push(PolicyModel::AwaitLive { secs: 15 }).push(
        PolicyModel::ReadMedia { url: srt_live_address(port, key), label },
    ).push(PolicyModel::StopPublisher).push(PolicyModel::AwaitOff { secs: 10 }).push(
        PolicyModel::Passed { label: part },
    )
}

fn add_open_part(
    plan: &mut Vec<PolicyStep>,
    port: u16,
    key: &str,
    setting: PolicySetting,
    label: &str,
    part: &str,
)
    ensures
        policy_steps(final(plan)@) == open_part(
            policy_steps(old(plan)@),
            port,
            key@,
            setting@,
            label@,
            part@,
        ),
{
    add_step(
        plan,
        PolicyStep::CreatePipeline { name: key.to_string(), stream_key: key.to_string(), setting },
    );
    add_step(plan, PolicyStep::Publish { url: srt_publish_url(port, key, &no_secret()) });
    add_step(plan, PolicyStep::AwaitLive { secs: 15 });
    add_step(
        plan,
        PolicyStep::ReadMedia {
            url: srt_read_url(port, key, &no_secret()),
            label: label.to_string(),
        },
    );
    add_step(plan, PolicyStep::StopPublisher);
    add_step(plan, PolicyStep::AwaitOff { secs: 10 });
    add_step(plan, PolicyStep::Passed { label: part.to_string() });
}

/// A pipeline that inherits the server's secret.
pub open spec fn inherited_part(s: Seq<PolicyModel>, port: u16) -> Seq<PolicyModel> {
    let key = "policy-global-enc"@;
    s.push(
        PolicyModel::CreatePipeline { name: key, stream_key: key, setting: SettingModel::Inherit },
    ).push(
        PolicyModel::Publish { url: secret_at(srt_address(port, key), "globalpass123"@, 16) },
    ).push(PolicyModel::AwaitLive { secs: 15 }).push(
        PolicyModel::ReadMedia {
            url: secret_at(srt_live_address(port, key), "globalpass123"@, 16),
            label: "global encrypted read"@,
        },
    ).push(
        PolicyModel::ReadRefused {
            url: srt_live_address(port, key),
            label: "global encrypted plaintext read"@,
            told_as: "plaintextReadRejected"@,
        },
    ).push(PolicyModel::StopPublisher).push(PolicyModel::AwaitOff { secs: 10 }).push(
        PolicyModel::PublishRefused {
            url: srt_address(port, key),
            label: "global encrypted plaintext publish"@,
            after_secs: 4,
            live_secs: 1,
            off_secs: 5,
        },
    ).push(PolicyModel::Passed { label: "globalEncrypted16Inherit"@ })
}

fn add_inherited_part(plan: &mut Vec<PolicyStep>, port: u16)
    ensures
        policy_steps(final(plan)@) == inherited_part(policy_steps(old(plan)@), port),
{
    let key: &str = "policy-global-enc";
    add_step(
        plan,
        PolicyStep::CreatePipeline {
            name: key.to_string(),
            stream_key: key.to_string(),
            setting: PolicySetting::Inherit,
        },
    );
    add_step(
        plan,
        PolicyStep::Publish { url: srt_publish_url(port, key, &secret("globalpass123", 16)) },
    );
    add_step(plan, PolicyStep::AwaitLive { secs: 15 });
    add_step(
        plan,
        PolicyStep::ReadMedia {
            url: srt_read_url(port, key, &secret("globalpass123", 16)),
            label: "global encrypted read".to_string(),
        },
    );
    add_step(
        plan,
        PolicyStep::ReadRefused {
            url: srt_read_url(port, key, &no_secret()),
            label: "global encrypted plaintext read".to_string(),
            told_as: "plaintextReadRejected",
        },
    );
    add_step(plan, PolicyStep::StopPublisher);
    add_step(plan, PolicyStep::AwaitOff { secs: 10 });
    add_step(
        plan,
        PolicyStep::PublishRefused {
            url: srt_publish_url(port, key, &no_secret()),
            label: "global encrypted plaintext publish".to_string(),
            after_secs: 4,
            live_secs: 1,
            off_secs: 5,
        },
    );
    add_step(plan, PolicyStep::Passed { label: "globalEncrypted16Inherit".to_string() });
}

/// A pipeline with a secret of its own.
pub open spec fn own_part(
    s: Seq<PolicyModel>,
    port: u16,
    label: Seq<char>,
    key: Seq<char>,
    passphrase: Seq<char>,
    pbkeylen: u32,
) -> Seq<PolicyModel> {
    s.push(
        PolicyModel::CreatePipeline {
            name: label,
            stream_key: key,
            setting: SettingModel::Encrypted { passphrase, pbkeylen },
        },
    ).push(
        PolicyModel::Publish { url: secret_at(srt_address(port, key), passphrase, pbkeylen) },
    ).push(PolicyModel::AwaitLive { secs: 15 }).push(
        PolicyModel::ReadMedia {
            url: secret_at(srt_live_address(port, key), passphrase, pbkeylen),
            label,
        },
    ).push(
        PolicyModel::ReadRefused {
            url: srt_live_address(port, key),
            label: label + " plaintext read"@,
            told_as: "plaintextReadRejected"@,
        },
    ).push(
        PolicyModel::ReadRefused {
            url: secret_at(srt_live_address(port, key), "wrongpass123"@, pbkeylen),
            label: label + " wrong passphrase read"@,
            told_as: "wrongPassphraseReadRejected"@,
        },
    ).push(PolicyModel::StopPublisher).push(PolicyModel::AwaitOff { secs: 10 }).push(
        PolicyModel::PublishRefused {
            url: srt_address(port, key),
            label: label + " plaintext publish"@,
            after_secs: 4,
            live_secs: 1,
            off_secs: 5,
        },
    ).push(PolicyModel::Passed { label })
}

fn add_own_part(
    plan: &mut Vec<PolicyStep>,
    port: u16,
    label: &str,
    key: &str,
    passphrase: &str,
    pbkeylen: u32,
)
    ensures
        policy_steps(final(plan)@) == own_part(
            policy_steps(old(plan)@),
            port,
            label@,
            key@,
            passphrase@,
            pbkeylen,
        ),
{
    add_step(
        plan,
        PolicyStep::CreatePipeline {
            name: label.to_string(),
            stream_key: key.to_string(),
            setting: PolicySetting::Encrypted { passphrase: passphrase.to_string(), pbkeylen },
        },
    );
    add_step(
        plan,
        PolicyStep::Publish { url: srt_publish_url(port, key, &secret(passphrase, pbkeylen)) },
    );
    add_step(plan, PolicyStep::AwaitLive { secs: 15 });
    add_step(
        plan,
        PolicyStep::ReadMedia {
            url: srt_read_url(port, key, &secret(passphrase, pbkeylen)),
            label: label.to_string(),
        },
    );
    add_step(
        plan,
        PolicyStep::ReadRefused {
            url: srt_read_url(port, key, &no_secret()),
            label: label.to_string().concat(" plaintext read"),
            told_as: "plaintextReadRejected",
        },
    );
    add_step(
        plan,
        PolicyStep::ReadRefused {
            url: srt_read_url(port, key, &secret("wrongpass123", pbkeylen)),
            label: label.to_string().concat(" wrong passphrase read"),
            told_as: "wrongPassphraseReadRejected",
        },
    );
    add_step(plan, PolicyStep::StopPublisher);
    add_step(plan, PolicyStep::AwaitOff { secs: 10 });
    add_step(
        plan,
        PolicyStep::PublishRefused {
            url: srt_publish_url(port, key, &no_secret()),
            label: label.to_string().concat(" plaintext publish"),
            after_secs: 4,
            live_secs: 1,
            off_secs: 5,
        },
    );
    add_step(plan, PolicyStep::Passed { label: label.to_string() });
}

/// What the server is asked for by a setting: of itself, where an open setting names a length and no
/// secret, or of a pipeline.
pub open spec fn setting_cells(setting: SettingModel, global: bool) -> Seq<(Seq<char>, Cell)> {
    match setting {
        SettingModel::Inherit => Seq::empty().push(("mode"@, Cell::Text("inherit"@))),
        SettingModel::Plaintext => {
            let open = Seq::empty().push(("mode"@, Cell::Text("plaintext"@)));
            if global {
                open.push(("pbkeylen"@, Cell::Whole(16))).push(
                    ("passphrase"@, Cell::Value(Json::Null)),
                )
            } else {
                open
            }
        },
        SettingModel::Encrypted { passphrase, pbkeylen } => Seq::empty().push(
            ("mode"@, Cell::Text("encrypted"@)),
        ).push(("passphrase"@, Cell::Text(passphrase))).push(
            ("pbkeylen"@, Cell::Whole(pbkeylen as int)),
        ),
    }
}

/// What the server is asked for by a setting, of itself or of a pipeline.
pub fn setting_json(setting: &PolicySetting, global: bool) -> (r: Json)
    ensures
        is_record(r, setting_cells(setting@, global)),
{
    let mut f: Record = Record::new();
    match setting {
        PolicySetting::Inherit => {
            f.add_text("mode", "inherit");
        },
        PolicySetting::Plaintext => {
            f.add_text("mode", "plaintext");
            if global {
                f.add_whole("pbkeylen", 16);
                f.add_field("passphrase", Json::Null);
            }
        },
        PolicySetting::Encrypted { passphrase, pbkeylen } => {
            f.add_text("mode", "encrypted");
            f.add_text("passphrase", passphrase.as_str());
            f.add_whole("pbkeylen", *pbkeylen as u64);
        },
    }
    f.finish()
}

/// The whole scenario: an open server, a server with a secret and a pipeline that is open all the
/// same, and an open server with pipelines that have secrets of their own.
pub open spec fn policy_plan(port: u16) -> Seq<PolicyModel> {
    let opened = open_part(
        Seq::empty().push(PolicyModel::SetGlobal { setting: SettingModel::Plaintext }),
        port,
        "policy-plain-inherit"@,
        SettingModel::Inherit,
        "plain inherit read"@,
        "globalPlaintextInherit"@,
    );
    let closed = inherited_part(
        opened.push(
            PolicyModel::SetGlobal {
                setting: SettingModel::Encrypted { passphrase: "globalpass123"@, pbkeylen: 16 },
            },
        ),
        port,
    );
    let overridden = open_part(
        closed,
        port,
        "policy-plain-override"@,
        SettingModel::Plaintext,
        "plain override read"@,
        "globalEncrypted16PipelinePlaintext"@,
    ).push(PolicyModel::SetGlobal { setting: SettingModel::Plaintext });
    own_part(
        own_part(
            overridden,
            port,
            "pipelineEncrypted24"@,
            "policy-enc-24"@,
            "pipepass1234"@,
            24,
        ),
        port,
        "pipelineEncrypted32"@,
        "policy-enc-32"@,
        "pipepass12345"@,
        32,
    )
}

/// Plans the scenario of the ingest policy.
pub fn plan_srt_policy(port: u16) -> (r: Vec<PolicyStep>)
    ensures
        policy_steps(r@) == policy_plan(port),
{
    let mut plan: Vec<PolicyStep> = Vec::new();
    assert(policy_steps(plan@) =~= Seq::<PolicyModel>::empty());
    add_step(&mut plan, PolicyStep::SetGlobal { setting: PolicySetting::Plaintext });
    add_open_part(
        &mut plan,
        port,
        "policy-plain-inherit",
        PolicySetting::Inherit,
        "plain inherit read",
        "globalPlaintextInherit",
    );
    add_step(
        &mut plan,
        PolicyStep::SetGlobal {
            setting: PolicySetting::Encrypted {
                passphrase: "globalpass123".to_string(),
                pbkeylen: 16,
            },
        },
    );
    add_inherited_part(&mut plan, port);
    add_open_part(
        &mut plan,
        port,
        "policy-plain-override",
        PolicySetting::Plaintext,
        "plain override read",
        "globalEncrypted16PipelinePlaintext",
    );
    add_step(&mut plan, PolicyStep::SetGlobal { setting: PolicySetting::Plaintext });
    add_own_part(
        &mut plan,
        port,
        "pipelineEncrypted24",
        "policy-enc-24",
        "pipepass1234",
        24,
    );
    add_own_part(
        &mut plan,
        port,
        "pipelineEncrypted32",
        "policy-enc-32",
        "pipepass12345",
        32,
    );
    plan
}

// ── Outcomes ─────────────────────────────────────────────────────────────────

/// What comes of a publisher that should have been refused.
pub fn refused_publish_verdict(label: &str, went_live: bool) -> (r: Result<(), String>)
    ensures
        !went_live ==> r is Ok,
        went_live ==> r is Err && r->Err_0@ == label@ + ": ingest unexpectedly went live"@,
{
    if went_live {
        Err(label.to_string().concat(": ingest unexpectedly went live"))
    } else {
        Ok(())
    }
}

/// What comes of a read that should have been refused, with what it gave where it was not.
pub fn refused_read_verdict(label: &str, read: &Option<String>) -> (r: Result<(), String>)
    ensures
        match *read {
            None => r is Ok,
            Some(probe) => r is Err && r->Err_0@ == label@ + ": read unexpectedly succeeded: "@
                + probe@,
        },
{
    match read {
        None => Ok(()),
        Some(probe) => Err(
            label.to_string().concat(": read unexpectedly succeeded: ").concat(probe.as_str()),
        ),
    }
}

// ── Laws ─────────────────────────────────────────────────────────────────────

/// How many publishers the steps leave running.
pub open spec fn publishers_left(s: Seq<PolicyModel>) -> int
    decreases s.len(),
{
    if s.len() == 0 {
        0
    } else {
        publishers_left(s.drop_last()) + match s.last() {
            PolicyModel::Publish { .. } => 1int,
            PolicyModel::StopPublisher => -1int,
            _ => 0int,
        }
    }
}

/// One more step.
pub broadcast proof fn publishers_left_push(s: Seq<PolicyModel>, step: PolicyModel)
    ensures
        #[trigger] publishers_left(s.push(step)) == publishers_left(s) + (match step {
            PolicyModel::Publish { .. } => 1int,
            PolicyModel::StopPublisher => -1int,
            _ => 0int,
        }),
{
    assert(s.push(step).drop_last() =~= s);
}

/// The scenario stops every publisher that it starts.
pub proof fn policy_plan_stops_its_publishers(port: u16)
    ensures
        publishers_left(policy_plan(port)) == 0,
{
    broadcast use publishers_left_push;

    assert(publishers_left(Seq::<PolicyModel>::empty()) == 0);
}

/// A pipeline with a secret is tried without it and with a wrong one: what is refused is never at
/// the address that is read.
pub proof fn refused_reads_differ(port: u16, key: Seq<char>, passphrase: Seq<char>, pbkeylen: u32)
    ensures
        srt_live_address(port, key) != secret_at(srt_live_address(port, key), passphrase, pbkeylen),
{
    reveal_strlit("&passphrase=");
    assert(secret_at(srt_live_address(port, key), passphrase, pbkeylen).len()
        > srt_live_address(port, key).len());
}

/// The settings as the server is told them: their mode, and what encryption needs; the server itself
/// is told of plaintext with a key length and without a passphrase.
pub proof fn settings_are_told_by_their_mode(passphrase: Seq<char>, pbkeylen: u32, global: bool)
    ensures
        setting_cells(SettingModel::Inherit, global) == seq![("mode"@, Cell::Text("inherit"@))],
        setting_cells(SettingModel::Plaintext, false) == seq![("mode"@, Cell::Text("plaintext"@))],
        setting_cells(SettingModel::Plaintext, true) == seq![
            ("mode"@, Cell::Text("plaintext"@)),
            ("pbkeylen"@, Cell::Whole(16)),
            ("passphrase"@, Cell::Value(Json::Null)),
        ],
        setting_cells(SettingModel::Encrypted { passphrase, pbkeylen }, global) == seq![
            ("mode"@, Cell::Text("encrypted"@)),
            ("passphrase"@, Cell::Text(passphrase)),
            ("pbkeylen"@, Cell::Whole(pbkeylen as int)),
        ],
{
    assert(setting_cells(SettingModel::Inherit, global) =~= seq![
        ("mode"@, Cell::Text("inherit"@)),
    ]);
    assert(setting_cells(SettingModel::Plaintext, false) =~= seq![
        ("mode"@, Cell::Text("plaintext"@)),
    ]);
    assert(setting_cells(SettingModel::Plaintext, true) =~= seq![
        ("mode"@, Cell::Text("plaintext"@)),
        ("pbkeylen"@, Cell::Whole(16)),
        ("passphrase"@, Cell::Value(Json::Null)),
    ]);
    assert(setting_cells(SettingModel::Encrypted { passphrase, pbkeylen }, global) =~= seq![
        ("mode"@, Cell::Text("encrypted"@)),
        ("passphrase"@, Cell::Text(passphrase)),
        ("pbkeylen"@, Cell::Whole(pbkeylen as int)),
    ]);
}

/// A pipeline with a secret of its own is published to and read from with that secret, and is tried
/// without one and with a wrong one before it is tried by a publisher without one.
pub proof fn own_secrets_are_tried_in_full(
    s: Seq<PolicyModel>,
    port: u16,
    label: Seq<char>,
    key: Seq<char>,
    passphrase: Seq<char>,
    pbkeylen: u32,
)
    ensures
        ({
            let part = own_part(s, port, label, key, passphrase, pbkeylen).skip(s.len() as int);
            let read = srt_live_address(port, key);
            &&& part[0] == PolicyModel::CreatePipeline {
                name: label,
                stream_key: key,
                setting: SettingModel::Encrypted { passphrase, pbkeylen },
            }
            &&& part[1] == PolicyModel::Publish {
                url: secret_at(srt_address(port, key), passphrase, pbkeylen),
            }
            &&& part[3] == (
                PolicyModel::ReadMedia { url: secret_at(read, passphrase, pbkeylen), label }
            )
            &&& part[4] == (
                PolicyModel::ReadRefused {
                    url: read,
                    label: label + " plaintext read"@,
                    told_as: "plaintextReadRejected"@,
                }
            )
            &&& part[5] == (
                PolicyModel::ReadRefused {
                    url: secret_at(read, "wrongpass123"@, pbkeylen),
                    label: label + " wrong passphrase read"@,
                    told_as: "wrongPassphraseReadRejected"@,
                }
            )
            &&& part[8] == (
                PolicyModel::PublishRefused {
                    url: srt_address(port, key),
                    label: label + " plaintext publish"@,
                    after_secs: 4,
                    live_secs: 1,
                    off_secs: 5,
                }
            )
            &&& part[6] == PolicyModel::StopPublisher && part.len() == 10
            &&& own_part(s, port, label, key, passphrase, pbkeylen).take(s.len() as int) == s
        }),
{
    let all = own_part(s, port, label, key, passphrase, pbkeylen);
    assert(all.take(s.len() as int) =~= s);
}

/// A secret is told behind the address, and then its length.
pub proof fn policy_secrets_stand_behind_the_address(
    url: Seq<char>,
    passphrase: Seq<char>,
    pbkeylen: u32,
)
    ensures
        secret_at(url, passphrase, pbkeylen) == url + "&passphrase="@ + passphrase + "&pbkeylen="@
            + decimal(pbkeylen as nat),
{
}

} // verus!

//! The encryption that SRT scenarios use.

use vstd::prelude::*;
use vstd::string::*;

use crate::number::{decimal, decimal_text};
use crate::text::{
    ascii_lower, chars_of, lemma_first_of, list_items, listed_items, position_of, same_text,
    text_option, texts, to_ascii_lower,
};

verus! {

/// How an SRT connection is encrypted, if it is.
#[derive(Debug, Clone)]
pub struct HarnessSrtCrypto {
    pub label: String,
    pub passphrase: Option<String>,
    pub pbkeylen: Option<String>,
}

/// What a [`HarnessSrtCrypto`] says.
pub struct CryptoModel {
    pub label: Seq<char>,
    pub passphrase: Option<Seq<char>>,
    pub pbkeylen: Option<Seq<char>>,
}

impl View for HarnessSrtCrypto {
    type V = CryptoModel;

    open spec fn view(&self) -> CryptoModel {
        CryptoModel {
            label: self.label@,
            passphrase: text_option(self.passphrase),
            pbkeylen: text_option(self.pbkeylen),
        }
    }
}

/// No encryption.
pub open spec fn plaintext_crypto() -> CryptoModel {
    CryptoModel { label: "plaintext"@, passphrase: None, pbkeylen: None }
}

/// Encryption with a key of this length, and the passphrase of the scenarios.
pub open spec fn encrypted_crypto(pbkeylen: u32) -> CryptoModel {
    CryptoModel {
        label: "encrypted-"@ + decimal(pbkeylen as nat),
        passphrase: Some("0123456789abcd"@),
        pbkeylen: Some(decimal(pbkeylen as nat)),
    }
}

impl CryptoModel {
    /// How the transport is named in reports.
    pub open spec fn transport(self) -> Seq<char> {
        match (self.passphrase, self.pbkeylen) {
            (None, _) => "plaintext"@,
            (Some(_), Some(len)) => "encrypted-"@ + len,
            (Some(_), None) => "encrypted"@,
        }
    }
}

impl HarnessSrtCrypto {
    pub fn plaintext() -> (r: Self)
        ensures
            r@ == plaintext_crypto(),
    {
        HarnessSrtCrypto { label: "plaintext".to_string(), passphrase: None, pbkeylen: None }
    }

    pub fn encrypted(pbkeylen: u32) -> (r: Self)
        ensures
            r@ == encrypted_crypto(pbkeylen),
    {
        let len: String = decimal_text(pbkeylen as u64);
        HarnessSrtCrypto {
            label: "encrypted-".to_string().concat(len.as_str()),
            passphrase: Some("0123456789abcd".to_string()),
            pbkeylen: Some(len),
        }
    }

    pub fn transport_label(&self) -> (r: String)
        ensures
            r@ == self@.transport(),
    {
        match (&self.passphrase, &self.pbkeylen) {
            (None, _) => "plaintext".to_string(),
            (Some(_), Some(len)) => "encrypted-".to_string().concat(len.as_str()),
            (Some(_), None) => "encrypted".to_string(),
        }
    }
}

/// A text of nothing is no text.
pub open spec fn nonempty(value: Option<Seq<char>>) -> Option<Seq<char>> {
    match value {
        Some(v) => if v.len() == 0 {
            None
        } else {
            Some(v)
        },
        None => None,
    }
}

fn keep_nonempty(value: &Option<String>) -> (r: Option<String>)
    ensures
        text_option(r) == nonempty(text_option(*value)),
{
    match value {
        Some(v) => if v.as_str().is_empty() {
            None
        } else {
            Some(v.clone())
        },
        None => None,
    }
}

/// The encryption that the environment sets: by `HARNESS_SRT_PASSPHRASE` and
/// `HARNESS_SRT_PBKEYLEN`.
pub open spec fn crypto_of_env(passphrase: Option<Seq<char>>, pbkeylen: Option<Seq<char>>) -> CryptoModel {
    match nonempty(passphrase) {
        Some(p) => CryptoModel {
            label: match nonempty(pbkeylen) {
                Some(len) => "encrypted-"@ + len,
                None => "encrypted"@,
            },
            passphrase: Some(p),
            pbkeylen: nonempty(pbkeylen),
        },
        None => plaintext_crypto(),
    }
}

/// The encryption that the environment sets.
pub fn harness_srt_crypto_from_env(passphrase: &Option<String>, pbkeylen: &Option<String>) -> (r:
    HarnessSrtCrypto)
    ensures
        r@ == crypto_of_env(text_option(*passphrase), text_option(*pbkeylen)),
{
    match keep_nonempty(passphrase) {
        Some(p) => {
            let len: Option<String> = keep_nonempty(pbkeylen);
            let label: String = match &len {
                Some(l) => "encrypted-".to_string().concat(l.as_str()),
                None => "encrypted".to_string(),
            };
            HarnessSrtCrypto { label, passphrase: Some(p), pbkeylen: len }
        },
        None => HarnessSrtCrypto::plaintext(),
    }
}

// ── Lists of variants ────────────────────────────────────────────────────────

/// The variant of a name, in any case.
pub open spec fn variant_named(name: Seq<char>) -> Option<CryptoModel> {
    let n = ascii_lower(name);
    if n == "plaintext"@ || n == "plain"@ {
        Some(plaintext_crypto())
    } else if n == "encrypted-16"@ || n == "enc16"@ || n == "aes128"@ || n == "128"@ {
        Some(encrypted_crypto(16))
    } else if n == "encrypted-24"@ || n == "enc24"@ || n == "aes192"@ || n == "192"@ {
        Some(encrypted_crypto(24))
    } else if n == "encrypted-32"@ || n == "enc32"@ || n == "aes256"@ || n == "256"@ {
        Some(encrypted_crypto(32))
    } else {
        None
    }
}

/// Whether a list has a variant with a label.
pub open spec fn has_label(list: Seq<CryptoModel>, label: Seq<char>) -> bool {
    exists|i: int| 0 <= i < list.len() && (#[trigger] list[i]).label == label
}

/// The variants of names, each once, in the order in which they are first named; the first name
/// that names none is the error.
pub open spec fn variants_of(names: Seq<Seq<char>>) -> Result<Seq<CryptoModel>, Seq<char>>
    decreases names.len(),
{
    if names.len() == 0 {
        Ok(Seq::empty())
    } else {
        match variants_of(names.drop_last()) {
            Err(e) => Err(e),
            Ok(list) => match variant_named(names.last()) {
                None => Err(ascii_lower(names.last())),
                Some(v) => if has_label(list, v.label) {
                    Ok(list)
                } else {
                    Ok(list.push(v))
                },
            },
        }
    }
}

/// What a list of variants says.
pub open spec fn crypto_list(v: Seq<HarnessSrtCrypto>) -> Seq<CryptoModel> {
    v.map_values(|c: HarnessSrtCrypto| c@)
}

fn find_variant(name: &str) -> (r: Option<HarnessSrtCrypto>)
    ensures
        match r {
            Some(v) => variant_named(name@) == Some(v@),
            None => variant_named(name@) is None,
        },
{
    let lower: String = to_ascii_lower(name);
    let n: &str = lower.as_str();
    if same_text(n, "plaintext") || same_text(n, "plain") {
        Some(HarnessSrtCrypto::plaintext())
    } else if same_text(n, "encrypted-16") || same_text(n, "enc16") || same_text(n, "aes128")
        || same_text(n, "128") {
        Some(HarnessSrtCrypto::encrypted(16))
    } else if same_text(n, "encrypted-24") || same_text(n, "enc24") || same_text(n, "aes192")
        || same_text(n, "192") {
        Some(HarnessSrtCrypto::encrypted(24))
    } else if same_text(n, "encrypted-32") || same_text(n, "enc32") || same_text(n, "aes256")
        || same_text(n, "256") {
        Some(HarnessSrtCrypto::encrypted(32))
    } else {
        None
    }
}

fn label_known(list: &Vec<HarnessSrtCrypto>, label: &str) -> (r: bool)
    ensures
        r == has_label(crypto_list(list@), label@),
{
    let mut i: usize = 0;
    while i < list.len()
        invariant
            i <= list@.len(),
            forall|k: int| 0 <= k < i ==> (#[trigger] crypto_list(list@)[k]).label != label@,
        decreases list@.len() - i,
    {
        assert(crypto_list(list@)[i as int] == list@[i as int]@);
        if same_text(list[i].label.as_str(), label) {
            return true;
        }
        i += 1;
    }
    false
}

proof fn lemma_error_stays(names: Seq<Seq<char>>, k: int, e: Seq<char>)
    requires
        0 <= k <= names.len(),
        variants_of(names.take(k)) == Err::<Seq<CryptoModel>, Seq<char>>(e),
    ensures
        variants_of(names) == Err::<Seq<CryptoModel>, Seq<char>>(e),
    decreases names.len(),
{
    if k < names.len() {
        assert(names.drop_last().take(k) =~= names.take(k));
        lemma_error_stays(names.drop_last(), k, e);
    } else {
        assert(names.take(k) =~= names);
    }
}

/// The variants that a variable lists, each once; `name` is the variable and `value` what it holds,
/// or its default.
pub fn parse_srt_crypto_variants(name: &str, value: &str) -> (r: Result<
    Vec<HarnessSrtCrypto>,
    String,
>)
    ensures
        match variants_of(listed_items(value@)) {
            Ok(list) => if list.len() == 0 {
                r is Err && r->Err_0@ == name@ + " did not resolve to any SRT crypto variants"@
            } else {
                r is Ok && crypto_list(r->Ok_0@) == list
            },
            Err(other) => r is Err && r->Err_0@ == name@
                + " contains unsupported SRT crypto variant '"@ + other + "'"@,
        },
{
    let names: Vec<String> = list_items(value);
    let ghost all = texts(names@);
    let mut out: Vec<HarnessSrtCrypto> = Vec::new();
    let mut i: usize = 0;
    assert(all.take(0) =~= Seq::<Seq<char>>::empty());
    assert(crypto_list(out@) =~= Seq::<CryptoModel>::empty());
    while i < names.len()
        invariant
            i <= names@.len(),
            all == texts(names@),
            all == listed_items(value@),
            variants_of(all.take(i as int)) == Ok::<Seq<CryptoModel>, Seq<char>>(
                crypto_list(out@),
            ),
        decreases names@.len() - i,
    {
        assert(all.take(i + 1).drop_last() =~= all.take(i as int));
        assert(all.take(i + 1).last() == names@[i as int]@);
        match find_variant(names[i].as_str()) {
            Some(v) => {
                if !label_known(&out, v.label.as_str()) {
                    let ghost before = out@;
                    let ghost m = v@;
                    out.push(v);
                    assert(crypto_list(out@) =~= crypto_list(before).push(m));
                }
            },
            None => {
                proof {
                    lemma_error_stays(all, i + 1, ascii_lower(names@[i as int]@));
                }
                return Err(
                    name.to_string().concat(" contains unsupported SRT crypto variant '").concat(
                        to_ascii_lower(names[i].as_str()).as_str(),
                    ).concat("'"),
                );
            },
        }
        i += 1;
    }
    assert(all.take(all.len() as int) =~= all);
    assert(crypto_list(out@).len() == out@.len());
    if out.is_empty() {
        return Err(name.to_string().concat(" did not resolve to any SRT crypto variants"));
    }
    Ok(out)
}

// ── Addresses ────────────────────────────────────────────────────────────────

/// An address with the encryption in its query.
pub open spec fn encrypted_address(url: Seq<char>, c: CryptoModel) -> Seq<char> {
    match c.passphrase {
        None => url,
        Some(p) => {
            let base = url + (if url.contains('?') {
                "&"@
            } else {
                "?"@
            }) + "passphrase="@ + p;
            match c.pbkeylen {
                Some(len) => base + "&pbkeylen="@ + len,
                None => base,
            }
        },
    }
}

/// An address with the encryption in its query.
pub fn append_srt_crypto(url: String, crypto: &HarnessSrtCrypto) -> (r: String)
    ensures
        r@ == encrypted_address(url@, crypto@),
{
    match &crypto.passphrase {
        None => url,
        Some(p) => {
            let v: Vec<char> = chars_of(url.as_str());
            let at: usize = position_of(&v, '?');
            proof {
                lemma_first_of(url@, '?');
            }
            let sep: &str = if at < v.len() {
                "&"
            } else {
                "?"
            };
            let mut out: String = url.concat(sep).concat("passphrase=").concat(p.as_str());
            if let Some(len) = &crypto.pbkeylen {
                out = out.concat("&pbkeylen=").concat(len.as_str());
            }
            out
        },
    }
}

// ── Laws ─────────────────────────────────────────────────────────────────────

/// No two variants of a list share a label.
pub proof fn variants_are_distinct(names: Seq<Seq<char>>)
    ensures
        variants_of(names) matches Ok(list) ==> forall|i: int, j: int|
            0 <= i < j < list.len() ==> (#[trigger] list[i]).label != (#[trigger] list[j]).label,
    decreases names.len(),
{
    if names.len() > 0 {
        variants_are_distinct(names.drop_last());
        if let (Ok(front), Ok(list)) = (variants_of(names.drop_last()), variants_of(names)) {
            assert forall|i: int, j: int| 0 <= i < j < list.len() implies (
            #[trigger] list[i]).label != (#[trigger] list[j]).label by {
                if j < front.len() {
                    assert(list[i] == front[i] && list[j] == front[j]);
                } else {
                    assert(list[i] == front[i]);
                }
            }
        }
    }
}

/// Without encryption an address stays as it is.
pub proof fn plaintext_leaves_address(url: Seq<char>)
    ensures
        encrypted_address(url, plaintext_crypto()) == url,
{
}

/// The label of a variant is how its transport is named.
pub proof fn label_is_transport(pbkeylen: u32)
    ensures
        plaintext_crypto().label == plaintext_crypto().transport(),
        encrypted_crypto(pbkeylen).label == encrypted_crypto(pbkeylen).transport(),
{
}

/// Each variant of encryption is known by four names, in either case, and plaintext by two; a name
/// that is none of these is refused.
pub proof fn variants_are_known_by_their_names(name: Seq<char>)
    ensures
        ascii_lower(name) == "plaintext"@ || ascii_lower(name) == "plain"@ ==> variant_named(name)
            == Some(CryptoModel { label: "plaintext"@, passphrase: None, pbkeylen: None }),
        variant_named(name) matches Some(v) ==> {
            ||| v.passphrase is None && (ascii_lower(name) == "plaintext"@ || ascii_lower(name)
                == "plain"@)
            ||| v == encrypted_crypto(16) && (ascii_lower(name) == "encrypted-16"@ || ascii_lower(
                name,
            ) == "enc16"@ || ascii_lower(name) == "aes128"@ || ascii_lower(name) == "128"@)
            ||| v == encrypted_crypto(24) && (ascii_lower(name) == "encrypted-24"@ || ascii_lower(
                name,
            ) == "enc24"@ || ascii_lower(name) == "aes192"@ || ascii_lower(name) == "192"@)
            ||| v == encrypted_crypto(32) && (ascii_lower(name) == "encrypted-32"@ || ascii_lower(
                name,
            ) == "enc32"@ || ascii_lower(name) == "aes256"@ || ascii_lower(name) == "256"@)
        },
        variant_named(name) is None ==> ascii_lower(name) != "plaintext"@ && ascii_lower(name)
            != "enc16"@ && ascii_lower(name) != "enc24"@ && ascii_lower(name) != "enc32"@
            && ascii_lower(name) != "encrypted-16"@ && ascii_lower(name) != "encrypted-24"@
            && ascii_lower(name) != "encrypted-32"@,
{
}

/// An encrypted variant has a passphrase that SRT takes, and tells its key length.
pub proof fn encrypted_variants_tell_their_length(pbkeylen: u32)
    ensures
        encrypted_crypto(pbkeylen).passphrase is Some,
        10 <= encrypted_crypto(pbkeylen).passphrase->0.len() <= 79,
        encrypted_crypto(pbkeylen).pbkeylen == Some(decimal(pbkeylen as nat)),
        encrypted_crypto(pbkeylen).label == "encrypted-"@ + decimal(pbkeylen as nat),
{
    reveal_strlit("0123456789abcd");
}

/// The environment encrypts exactly where it sets a passphrase that is not empty; a key length alone
/// does nothing, and an empty one is none.
pub proof fn environment_encrypts_with_a_passphrase(
    passphrase: Option<Seq<char>>,
    pbkeylen: Option<Seq<char>>,
)
    ensures
        passphrase is None || passphrase->0.len() == 0 ==> crypto_of_env(passphrase, pbkeylen)
            == (CryptoModel { label: "plaintext"@, passphrase: None, pbkeylen: None }),
        passphrase is Some && passphrase->0.len() > 0 ==> {
            let c = crypto_of_env(passphrase, pbkeylen);
            &&& c.passphrase == passphrase
            &&& pbkeylen is Some && pbkeylen->0.len() > 0 ==> c.pbkeylen == pbkeylen && c.label
                == "encrypted-"@ + pbkeylen->0
            &&& pbkeylen is None || pbkeylen->0.len() == 0 ==> c.pbkeylen is None && c.label
                == "encrypted"@
        },
{
}

/// A passphrase is told behind an address: after a question mark, or after an ampersand where there
/// is one already; its key length follows where there is one.
pub proof fn passphrase_is_told_behind_the_address(
    url: Seq<char>,
    label: Seq<char>,
    passphrase: Seq<char>,
    pbkeylen: Seq<char>,
)
    ensures
        !url.contains('?') ==> encrypted_address(
            url,
            CryptoModel { label, passphrase: Some(passphrase), pbkeylen: None },
        ) == url + "?"@ + "passphrase="@ + passphrase,
        url.contains('?') ==> encrypted_address(
            url,
            CryptoModel { label, passphrase: Some(passphrase), pbkeylen: Some(pbkeylen) },
        ) == url + "&"@ + "passphrase="@ + passphrase + "&pbkeylen="@ + pbkeylen,
{
}

} // verus!

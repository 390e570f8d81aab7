//! Public keys: their value, their kind, and what is done with them.

use crate::crypto::{
    ed25519_verified, hex_lower, is_lower_hex, is_rsa, rsa_key_type_of, rsa_pss_verified, sha256,
    Crypto, KeyDecodeError, KeyType, DIGEST_INPUT_LIMIT,
};
use crate::json::{
    json_string_at, json_string_at2, json_strings, json_two_level_object, string_at, JsonPath,
};
use crate::text::{
    indented, lowercase_of, push_indented_lines, str_eq, text_lines, to_lowercase,
};
use serde_json::Value;
use vstd::prelude::*;
use vstd::string::*;
use vstd::utf8::*;

verus! {

/// A public key: its text, which is a PEM encoding for an RSA key and
/// hexadecimal digits for an Ed25519 key, and the kind it was found to be of.
/// The text is never read as that of another kind.
#[derive(Debug)]
pub struct PublicKey {
    value: String,
    key_type: KeyType,
}

/// What a public key is, as contracts speak of it.
pub struct PublicKeyView {
    pub value: Seq<char>,
    pub key_type: KeyType,
}

/// A fragment of trust metadata that describes a key: the text of its field
/// `keytype` and the text of the field `public` of its field `keyval`. A field
/// that is missing, or is no string, is `None`.
#[derive(Debug)]
pub struct TrustFragment {
    pub keytype: Option<String>,
    pub public: Option<String>,
}

/// What a trust fragment is, as contracts speak of it.
pub struct TrustFragmentView {
    pub keytype: Option<Seq<char>>,
    pub public: Option<Seq<char>>,
}

/// The fields that a trust fragment must have.
#[derive(Debug, PartialEq, Eq, Clone, Copy, Structural)]
pub enum FragmentField {
    /// The string `keytype`.
    KeyType,
    /// The string `public` under `keyval`.
    KeyValue,
}

/// Why no key is made of a trust fragment.
#[derive(Debug, PartialEq, Eq, Clone, Copy, Structural)]
pub enum PublicKeyError {
    /// The fragment lacks the field, or holds something else than a string
    /// there.
    MalformedFragment(FragmentField),
    /// The fragment says that the key is an RSA key, and its text encodes
    /// none.
    KeyDecode(KeyDecodeError),
}

impl View for PublicKey {
    type V = PublicKeyView;

    closed spec fn view(&self) -> PublicKeyView {
        PublicKeyView { value: self.value@, key_type: self.key_type }
    }
}

impl View for TrustFragment {
    type V = TrustFragmentView;

    open spec fn view(&self) -> TrustFragmentView {
        TrustFragmentView {
            keytype: match self.keytype {
                Some(s) => Some(s@),
                None => None,
            },
            public: match self.public {
                Some(s) => Some(s@),
                None => None,
            },
        }
    }
}

/// The key of which no record exists: it verifies nothing.
pub open spec fn absent_key() -> PublicKeyView {
    PublicKeyView { value: "Unknown"@, key_type: KeyType::Unknown }
}

/// The kind of the key that a fragment describes, given its `keytype` in
/// lower case and the text of the key. `ed25519` is taken at its word. For
/// `rsa` the kind is found from the key itself, which fails where the text
/// encodes no RSA key. Any other `keytype` gives `Unknown`.
pub open spec fn fragment_key_type(keytype: Seq<char>, public: Seq<char>) -> Result<
    KeyType,
    KeyDecodeError,
> {
    if keytype == "ed25519"@ {
        Ok(KeyType::Ed25519)
    } else if keytype == "rsa"@ {
        rsa_key_type_of(encode_utf8(public))
    } else {
        Ok(KeyType::Unknown)
    }
}

/// The key that a fragment describes, or why there is none. A fragment
/// without `keytype` fails first, then one without the text of the key.
pub open spec fn key_of_fragment(f: TrustFragmentView) -> Result<PublicKeyView, PublicKeyError> {
    match (f.keytype, f.public) {
        (None, _) => Err(PublicKeyError::MalformedFragment(FragmentField::KeyType)),
        (Some(_), None) => Err(PublicKeyError::MalformedFragment(FragmentField::KeyValue)),
        (Some(keytype), Some(public)) => match fragment_key_type(lowercase_of(keytype), public) {
            Ok(key_type) => Ok(PublicKeyView { value: public, key_type }),
            Err(e) => Err(PublicKeyError::KeyDecode(e)),
        },
    }
}

/// The `keytype` that is written for a kind of key: `RSA` for every RSA kind,
/// whatever its size.
pub open spec fn canonical_keytype(key_type: KeyType) -> Seq<char> {
    match key_type {
        KeyType::Rsa2048 | KeyType::Rsa3072 | KeyType::Rsa4096 => "RSA"@,
        KeyType::Ed25519 => "ED25519"@,
        KeyType::Unknown => "unknown"@,
    }
}

/// The fragment that is written for a key.
pub open spec fn canonical_form(key: PublicKeyView) -> TrustFragmentView {
    TrustFragmentView { keytype: Some(canonical_keytype(key.key_type)), public: Some(key.value) }
}

/// The fragment that a JSON value with the strings `m` is read as.
pub open spec fn fragment_of_strings(m: Map<JsonPath, Seq<char>>) -> TrustFragmentView {
    TrustFragmentView {
        keytype: string_at(m, seq!["keytype"@]),
        public: string_at(m, seq!["keyval"@, "public"@]),
    }
}

/// The strings of the JSON value that a fragment with both fields is written
/// as.
pub open spec fn strings_of_fragment(f: TrustFragmentView) -> Map<JsonPath, Seq<char>> {
    map![
        seq!["keytype"@] => f.keytype->0,
        seq!["keyval"@, "public"@] => f.public->0,
    ]
}

/// Whether a key accepts `signature` for `message`: by Ed25519 or by RSA with
/// PSS padding and SHA-256, as its kind says. A key of unknown kind accepts
/// nothing.
pub open spec fn signature_accepted(
    key: PublicKeyView,
    signature: Seq<u8>,
    message: Seq<u8>,
) -> bool {
    match key.key_type {
        KeyType::Ed25519 => ed25519_verified(key.value, signature, message),
        KeyType::Rsa2048 | KeyType::Rsa3072 | KeyType::Rsa4096 => rsa_pss_verified(
            key.value,
            signature,
            message,
        ),
        KeyType::Unknown => false,
    }
}

/// The identifier of the key with the text `value`: the SHA-256 digest of the
/// text in hexadecimal digits. The kind of the key plays no part in it.
pub open spec fn key_id_of(value: Seq<char>) -> Seq<char> {
    hex_lower(sha256(encode_utf8(value)))
}

impl Clone for PublicKey {
    fn clone(&self) -> (key: Self)
        ensures
            key@ == self@,
    {
        PublicKey { value: self.value.clone(), key_type: self.key_type }
    }
}

impl Default for PublicKey {
    /// The key of which no record exists.
    fn default() -> (key: Self)
        ensures
            key@ == absent_key(),
    {
        PublicKey { value: String::from_str("Unknown"), key_type: KeyType::Unknown }
    }
}

impl PublicKeyError {
    /// What the error says.
    pub fn to_string(&self) -> (message: String)
        ensures
            message@ == match *self {
                PublicKeyError::MalformedFragment(FragmentField::KeyType) => "Invalid key type"@,
                PublicKeyError::MalformedFragment(FragmentField::KeyValue) => "Invalid key value"@,
                PublicKeyError::KeyDecode(_) =>
                    "key material is not a PEM-encoded RSA public key"@,
            },
    {
        match self {
            PublicKeyError::MalformedFragment(FragmentField::KeyType) => String::from_str(
                "Invalid key type",
            ),
            PublicKeyError::MalformedFragment(FragmentField::KeyValue) => String::from_str(
                "Invalid key value",
            ),
            PublicKeyError::KeyDecode(e) => e.to_string(),
        }
    }
}

impl TrustFragment {
    /// Reads a fragment from a JSON value: the string under `keytype`, and
    /// the string under `public` in the object under `keyval`.
    pub fn from_json(uptane_json: &Value) -> (f: TrustFragment)
        ensures
            f@ == fragment_of_strings(json_strings(*uptane_json)),
    {
        let keytype = json_string_at(uptane_json, "keytype");
        let public = json_string_at2(uptane_json, "keyval", "public");
        TrustFragment { keytype, public }
    }
}

impl PublicKey {
    /// The key with the text `value`, of the kind `key_type`.
    pub fn new(value: &str, key_type: KeyType) -> (key: PublicKey)
        ensures
            key@ == (PublicKeyView { value: value@, key_type }),
    {
        PublicKey { value: String::from_str(value), key_type }
    }

    /// The text of the key.
    pub fn value(&self) -> (value: &str)
        ensures
            value@ == self@.value,
    {
        self.value.as_str()
    }

    /// The kind of the key.
    pub fn key_type(&self) -> (key_type: KeyType)
        ensures
            key_type == self@.key_type,
    {
        self.key_type
    }

    /// The RSA key with the PEM text `value`, of the kind that the size of
    /// its modulus gives. A text that encodes no RSA public key is an error.
    pub fn from_material(value: &str) -> (res: Result<PublicKey, KeyDecodeError>)
        ensures
            match rsa_key_type_of(value.spec_bytes()) {
                Ok(key_type) => res matches Ok(key) && key@ == (PublicKeyView {
                    value: value@,
                    key_type,
                }),
                Err(e) => res matches Err(f) && f == e,
            },
    {
        match Crypto::identify_rsa_key_type(value) {
            Ok(key_type) => Ok(PublicKey::new(value, key_type)),
            Err(e) => Err(e),
        }
    }

    /// The kind of the key that a fragment describes, given its `keytype` in
    /// lower case and the text of the key.
    pub fn classify(keytype: &str, public: &str) -> (res: Result<KeyType, KeyDecodeError>)
        ensures
            res == fragment_key_type(keytype@, public@),
    {
        if str_eq(keytype, "ed25519") {
            Ok(KeyType::Ed25519)
        } else if str_eq(keytype, "rsa") {
            Crypto::identify_rsa_key_type(public)
        } else {
            Ok(KeyType::Unknown)
        }
    }

    /// The key that a trust fragment describes. The fragment must have both
    /// its fields; what `keytype` says is not refused, whatever it is.
    pub fn from_trust_fragment(fragment: &TrustFragment) -> (res: Result<PublicKey, PublicKeyError>)
        ensures
            match key_of_fragment(fragment@) {
                Ok(view) => res matches Ok(key) && key@ == view,
                Err(e) => res matches Err(f) && f == e,
            },
    {
        let keytype = match &fragment.keytype {
            Some(keytype) => to_lowercase(keytype.as_str()),
            None => {
                return Err(PublicKeyError::MalformedFragment(FragmentField::KeyType));
            },
        };
        let public = match &fragment.public {
            Some(public) => public,
            None => {
                return Err(PublicKeyError::MalformedFragment(FragmentField::KeyValue));
            },
        };
        match PublicKey::classify(keytype.as_str(), public.as_str()) {
            Ok(key_type) => Ok(PublicKey::new(public.as_str(), key_type)),
            Err(e) => Err(PublicKeyError::KeyDecode(e)),
        }
    }

    /// The key that the JSON form of a trust fragment describes.
    pub fn from_json(uptane_json: &Value) -> (res: Result<PublicKey, PublicKeyError>)
        ensures
            match key_of_fragment(fragment_of_strings(json_strings(*uptane_json))) {
                Ok(view) => res matches Ok(key) && key@ == view,
                Err(e) => res matches Err(f) && f == e,
            },
    {
        let fragment = TrustFragment::from_json(uptane_json);
        PublicKey::from_trust_fragment(&fragment)
    }

    /// Whether `signature` is a valid signature of `message` under this key.
    /// A key of unknown kind gives `false`, and so does whatever goes wrong on
    /// the way.
    pub fn verify_signature(&self, signature: &[u8], message: &[u8]) -> (valid: bool)
        ensures
            valid == signature_accepted(self@, signature@, message@),
    {
        match self.key_type {
            KeyType::Ed25519 => Crypto::ed25519_verify(self.value.as_str(), signature, message),
            KeyType::Rsa2048 | KeyType::Rsa3072 | KeyType::Rsa4096 => Crypto::rsa_pss_verify(
                self.value.as_str(),
                signature,
                message,
            ),
            KeyType::Unknown => false,
        }
    }

    /// The `keytype` that is written for the key.
    fn canonical_keytype(&self) -> (keytype: &'static str)
        ensures
            keytype@ == canonical_keytype(self@.key_type),
    {
        match self.key_type {
            KeyType::Rsa2048 | KeyType::Rsa3072 | KeyType::Rsa4096 => "RSA",
            KeyType::Ed25519 => "ED25519",
            KeyType::Unknown => "unknown",
        }
    }

    /// The trust fragment that describes the key. It names every RSA kind
    /// `RSA`: the size of an RSA key is not written.
    pub fn to_canonical_form(&self) -> (fragment: TrustFragment)
        ensures
            fragment@ == canonical_form(self@),
    {
        TrustFragment {
            keytype: Some(String::from_str(self.canonical_keytype())),
            public: Some(self.value.clone()),
        }
    }

    /// The JSON form of the trust fragment that describes the key.
    pub fn to_uptane(&self) -> (res: Value)
        ensures
            json_strings(res) == strings_of_fragment(canonical_form(self@)),
    {
        proof {
            reveal_strlit("keytype");
            reveal_strlit("keyval");
            assert("keytype"@[3] != "keyval"@[3]);
        }
        json_two_level_object(
            "keytype",
            self.canonical_keytype(),
            "keyval",
            "public",
            self.value.as_str(),
        )
    }

    /// The text of the key as it is shown: each of its lines after three
    /// spaces and before a line feed.
    pub fn to_string(&self) -> (text: String)
        ensures
            text@ == indented(text_lines(self@.value)),
    {
        let mut text = String::new();
        push_indented_lines(&mut text, self.value.as_str());
        text
    }

    /// The identifier of the key: the SHA-256 digest of its text, as 64
    /// hexadecimal digits in lower case.
    pub fn key_id(&self) -> (id: String)
        requires
            encode_utf8(self@.value).len() < DIGEST_INPUT_LIMIT,
        ensures
            id@ == key_id_of(self@.value),
            id@.len() == 64,
            forall|i: int| 0 <= i < 64 ==> is_lower_hex(#[trigger] id@[i]),
    {
        Crypto::sha256digest_hex(self.value.as_str())
    }
}

/// The key of which no record exists accepts no signature for any message.
pub proof fn lemma_absent_key_accepts_nothing(signature: Seq<u8>, message: Seq<u8>)
    ensures
        !signature_accepted(absent_key(), signature, message),
{
}

/// A key of unknown kind accepts no signature for any message, whatever its
/// text.
pub proof fn lemma_unknown_key_accepts_nothing(
    key: PublicKeyView,
    signature: Seq<u8>,
    message: Seq<u8>,
)
    requires
        key.key_type == KeyType::Unknown,
    ensures
        !signature_accepted(key, signature, message),
{
}

/// Keys with the same text have the same identifier, whatever their kinds.
pub proof fn lemma_key_id_follows_value(a: PublicKeyView, b: PublicKeyView)
    requires
        a.value == b.value,
    ensures
        key_id_of(a.value) == key_id_of(b.value),
{
}

/// A fragment that says `rsa`, in any case, and describes an RSA key of one of
/// the three known sizes is written back with the `keytype` `RSA` and with the
/// text it came with.
pub proof fn lemma_rsa_fragment_round_trip(f: TrustFragmentView)
    requires
        f.keytype is Some,
        lowercase_of(f.keytype->0) == "rsa"@,
        key_of_fragment(f) matches Ok(key) && key.key_type != KeyType::Unknown,
    ensures
        canonical_form(key_of_fragment(f)->Ok_0).keytype == Some("RSA"@),
        canonical_form(key_of_fragment(f)->Ok_0).public == f.public,
{
    reveal_strlit("rsa");
    reveal_strlit("ed25519");
    assert("rsa"@.len() != "ed25519"@.len());
}

} // verus!

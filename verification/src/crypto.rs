//! Key classification, digests and signature verification.
//!
//! The cryptography itself is done by OpenSSL and ring. What they return is
//! named here by functions without a body; the decisions around their calls
//! are verified.

use crate::text::{lowercase_of, str_eq, to_lowercase};
use vstd::prelude::*;
use vstd::string::*;
use vstd::utf8::*;

verus! {

/// The kinds of key that signatures are verified with.
#[derive(Debug, PartialEq, Eq, Clone, Copy, Structural)]
pub enum KeyType {
    Ed25519,
    Rsa2048,
    Rsa3072,
    Rsa4096,
    Unknown,
}

/// The failure to decode key material: it is not the PEM encoding of an RSA
/// public key.
#[derive(Debug, PartialEq, Eq, Clone, Copy, Structural)]
pub struct KeyDecodeError;

/// The namespace of the cryptographic functions.
pub struct Crypto;

/// Declares `openssl::error::ErrorStack`, the error of OpenSSL's calls. It is
/// carried from the call to the place where it is turned into a decision;
/// nothing is claimed of what it holds.
#[verifier::external_type_specification]
#[verifier::external_body]
pub struct ExErrorStack(openssl::error::ErrorStack);

/// Declares `hex::FromHexError`, the error of `hex::decode`. Nothing is
/// claimed of what it holds.
#[verifier::external_type_specification]
#[verifier::external_body]
pub struct ExFromHexError(hex::FromHexError);

/// Declares `ring::error::Unspecified`, the error of ring's verification,
/// which holds nothing.
#[verifier::external_type_specification]
#[verifier::external_body]
pub struct ExUnspecified(ring::error::Unspecified);

/// The number of bytes from which on ring computes no digest: the length in
/// bits has to fit in 64 bits.
pub const DIGEST_INPUT_LIMIT: u64 = 0x2000_0000_0000_0000;

/// The number of bytes that Ed25519 hashes before the message: a point and the
/// public key.
pub const ED25519_PREFIX_LEN: u64 = 64;

/// The longest PEM text that OpenSSL reads from memory.
pub const PEM_MAX_LEN: usize = 0x7fff_ffff;

/// The SHA-256 digest of a byte string.
pub uninterp spec fn sha256(data: Seq<u8>) -> Seq<u8>;

/// Whether `signature` is an Ed25519 signature of `message` under the public
/// key whose 32-byte encoding is `public_key`, as ring decides it.
pub uninterp spec fn ed25519_accepts(
    public_key: Seq<u8>,
    message: Seq<u8>,
    signature: Seq<u8>,
) -> bool;

/// The size in bytes of the modulus of the RSA public key that `pem` encodes,
/// as OpenSSL reads it; `None` where `pem` does not encode one.
pub uninterp spec fn rsa_pem_size(pem: Seq<u8>) -> Option<u32>;

/// What OpenSSL finds when it verifies `signature` over `message` as an RSA
/// signature with PSS padding and SHA-256 under the public key that `pem`
/// encodes: `Some(true)` where the signature is valid, `Some(false)` where it
/// is not, `None` where the key cannot be read or the verification cannot be
/// carried out.
pub uninterp spec fn rsa_pss_sha256_accepts(
    pem: Seq<u8>,
    message: Seq<u8>,
    signature: Seq<u8>,
) -> Option<bool>;

/// The character of a hexadecimal digit, in lower case.
pub open spec fn hex_digit(n: int) -> char
    recommends
        0 <= n < 16,
{
    seq!['0', '1', '2', '3', '4', '5', '6', '7', '8', '9', 'a', 'b', 'c', 'd', 'e', 'f'][n]
}

/// The hexadecimal text of a byte string: two lower-case digits for each byte,
/// the high half first.
pub open spec fn hex_lower(data: Seq<u8>) -> Seq<char> {
    Seq::new(
        2 * data.len(),
        |i: int|
            if i % 2 == 0 {
                hex_digit(data[i / 2] as int / 16)
            } else {
                hex_digit(data[i / 2] as int % 16)
            },
    )
}

/// The value of a hexadecimal digit, in either case, given as a byte of text.
pub open spec fn hex_value(c: u8) -> Option<int> {
    if 0x30 <= c <= 0x39 {
        Some(c - 0x30)
    } else if 0x61 <= c <= 0x66 {
        Some(c - 0x61 + 10)
    } else if 0x41 <= c <= 0x46 {
        Some(c - 0x41 + 10)
    } else {
        None
    }
}

/// The bytes that a hexadecimal text stands for: one for each two digits.
/// A text of odd length, or with a byte that is no digit, stands for none.
pub open spec fn hex_decoded(text: Seq<u8>) -> Option<Seq<u8>> {
    if text.len() % 2 == 0 && forall|i: int| 0 <= i < text.len() ==> hex_value(text[i]) is Some {
        Some(
            Seq::new(
                text.len() / 2,
                |i: int| (hex_value(text[2 * i])->0 * 16 + hex_value(text[2 * i + 1])->0) as u8,
            ),
        )
    } else {
        None
    }
}

/// Whether a character is a hexadecimal digit in lower case.
pub open spec fn is_lower_hex(c: char) -> bool {
    ('0' <= c && c <= '9') || ('a' <= c && c <= 'f')
}

/// The kind of key that a name stands for. The name is compared as it is:
/// a caller folds the case first.
pub open spec fn key_type_named(name: Seq<char>) -> KeyType {
    if name == "ed25519"@ {
        KeyType::Ed25519
    } else if name == "rsa2048"@ {
        KeyType::Rsa2048
    } else if name == "rsa3072"@ {
        KeyType::Rsa3072
    } else if name == "rsa4096"@ {
        KeyType::Rsa4096
    } else {
        KeyType::Unknown
    }
}

/// The kind of key that a name stands for, in whatever case it is written.
pub open spec fn parsed_key_type(name: Seq<char>) -> KeyType {
    key_type_named(lowercase_of(name))
}

/// The name under which a kind of key is shown.
pub open spec fn key_type_label(key_type: KeyType) -> Seq<char> {
    match key_type {
        KeyType::Ed25519 => "Ed25519"@,
        KeyType::Rsa2048 => "Rsa2048"@,
        KeyType::Rsa3072 => "Rsa3072"@,
        KeyType::Rsa4096 => "Rsa4096"@,
        KeyType::Unknown => "Unknown"@,
    }
}

/// The kind of RSA key with a modulus of `bits` bits.
pub open spec fn key_type_of_rsa_bits(bits: int) -> KeyType {
    if bits == 2048 {
        KeyType::Rsa2048
    } else if bits == 3072 {
        KeyType::Rsa3072
    } else if bits == 4096 {
        KeyType::Rsa4096
    } else {
        KeyType::Unknown
    }
}

/// Whether a kind of key is one of the RSA kinds.
pub open spec fn is_rsa(key_type: KeyType) -> bool {
    key_type == KeyType::Rsa2048 || key_type == KeyType::Rsa3072 || key_type == KeyType::Rsa4096
}

/// The kind of the RSA public key that the PEM text `pem` encodes, by the
/// size of its modulus; an error where the text encodes no such key.
pub open spec fn rsa_key_type_of(pem: Seq<u8>) -> Result<KeyType, KeyDecodeError> {
    if pem.len() > PEM_MAX_LEN {
        Err(KeyDecodeError)
    } else {
        match rsa_pem_size(pem) {
            Some(size) => Ok(key_type_of_rsa_bits(size as int * 8)),
            None => Err(KeyDecodeError),
        }
    }
}

/// Whether `signature` is accepted as an RSA signature of `message` under the
/// key with the PEM text `public_key`. A key that cannot be read accepts
/// nothing.
pub open spec fn rsa_pss_verified(
    public_key: Seq<char>,
    signature: Seq<u8>,
    message: Seq<u8>,
) -> bool {
    let pem = encode_utf8(public_key);
    pem.len() <= PEM_MAX_LEN && rsa_pss_sha256_accepts(pem, message, signature) == Some(true)
}

/// Whether `signature` is accepted as an Ed25519 signature of `message` under
/// the key with the hexadecimal text `public_key`. A key that is no
/// hexadecimal text accepts nothing, and nothing is accepted for a message
/// too long to be hashed.
pub open spec fn ed25519_verified(
    public_key: Seq<char>,
    signature: Seq<u8>,
    message: Seq<u8>,
) -> bool {
    match hex_decoded(encode_utf8(public_key)) {
        Some(key) => message.len() + ED25519_PREFIX_LEN < DIGEST_INPUT_LIMIT && ed25519_accepts(
            key,
            message,
            signature,
        ),
        None => false,
    }
}

/// Calls `ring::digest::digest` with `ring::digest::SHA256`.
///
/// Trusted: the result is the SHA-256 digest of `data`, which `sha256` names,
/// and has 32 bytes. ring panics on an input whose length in bits does not fit
/// in 64 bits, so such an input is left out.
#[verifier::external_body]
fn ring_sha256(data: &[u8]) -> (digest: Vec<u8>)
    requires
        data@.len() < DIGEST_INPUT_LIMIT,
    ensures
        digest@ == sha256(data@),
        digest@.len() == 32,
{
    ring::digest::digest(&ring::digest::SHA256, data).as_ref().to_vec()
}

/// Calls `ring::signature::UnparsedPublicKey::verify` for
/// `ring::signature::ED25519`.
///
/// Trusted: the call succeeds exactly when ring accepts the signature, which
/// `ed25519_accepts` names. ring hashes 64 bytes and then the message, and
/// panics where the length of that in bits does not fit in 64 bits, so such a
/// message is left out.
#[verifier::external_body]
fn ring_ed25519_verify(
    public_key: &[u8],
    message: &[u8],
    signature: &[u8],
) -> (res: Result<(), ring::error::Unspecified>)
    requires
        message@.len() + ED25519_PREFIX_LEN < DIGEST_INPUT_LIMIT,
    ensures
        res is Ok <==> ed25519_accepts(public_key@, message@, signature@),
{
    ring::signature::UnparsedPublicKey::new(&ring::signature::ED25519, public_key).verify(
        message,
        signature,
    )
}

/// Calls `hex::encode`.
///
/// Trusted: the result holds two lower-case hexadecimal digits for each byte
/// of `data`, the high half first. The crate doubles the length to size the
/// result, so a length that cannot be doubled is left out.
#[verifier::external_body]
fn hex_encode(data: &[u8]) -> (text: String)
    requires
        2 * data@.len() <= usize::MAX,
    ensures
        text@ == hex_lower(data@),
{
    hex::encode(data)
}

/// Calls `hex::decode`.
///
/// Trusted: the call succeeds exactly on a text of even length whose bytes are
/// all hexadecimal digits, of either case, and then gives for each two digits
/// the byte they stand for.
#[verifier::external_body]
fn hex_decode(text: &[u8]) -> (res: Result<Vec<u8>, hex::FromHexError>)
    ensures
        match hex_decoded(text@) {
            Some(bytes) => res matches Ok(v) && v@ == bytes,
            None => res is Err,
        },
{
    hex::decode(text)
}

/// Calls `openssl::rsa::Rsa::public_key_from_pem` and, on the key it gives,
/// `size`.
///
/// Trusted: the result is the size in bytes of the modulus of the key that
/// `pem` encodes, or an error where OpenSSL reads no RSA public key from it;
/// `rsa_pem_size` names it. OpenSSL's memory reader panics on a text longer
/// than `PEM_MAX_LEN`, so such a text is left out.
#[verifier::external_body]
fn openssl_rsa_size(pem: &[u8]) -> (res: Result<u32, openssl::error::ErrorStack>)
    requires
        pem@.len() <= PEM_MAX_LEN,
    ensures
        match rsa_pem_size(pem@) {
            Some(size) => res matches Ok(n) && n == size,
            None => res is Err,
        },
{
    let rsa = openssl::rsa::Rsa::public_key_from_pem(pem)?;
    Ok(rsa.size())
}

/// Verifies an RSA signature with OpenSSL: reads the key with
/// `Rsa::public_key_from_pem`, wraps it with `PKey::from_rsa`, makes a
/// `Verifier` for SHA-256, sets PSS padding, feeds the message and calls
/// `verify` on the signature.
///
/// Trusted: the result is what these calls give, which
/// `rsa_pss_sha256_accepts` names: whether the signature is valid, or the
/// error of the first call that fails. A text longer than `PEM_MAX_LEN` is
/// left out, as in `openssl_rsa_size`.
#[verifier::external_body]
fn openssl_rsa_pss_sha256_verify(
    pem: &[u8],
    message: &[u8],
    signature: &[u8],
) -> (res: Result<bool, openssl::error::ErrorStack>)
    requires
        pem@.len() <= PEM_MAX_LEN,
    ensures
        match rsa_pss_sha256_accepts(pem@, message@, signature@) {
            Some(valid) => res matches Ok(b) && b == valid,
            None => res is Err,
        },
{
    let rsa = openssl::rsa::Rsa::public_key_from_pem(pem)?;
    let pkey = openssl::pkey::PKey::from_rsa(rsa)?;
    let digest = openssl::hash::MessageDigest::sha256();
    let mut verifier = openssl::sign::Verifier::new(digest, &pkey)?;
    verifier.set_rsa_padding(openssl::rsa::Padding::PKCS1_PSS)?;
    verifier.update(message)?;
    verifier.verify(signature)
}

impl KeyType {
    /// The kind of key named `name`, in lower case.
    pub fn from_lowercase(name: &str) -> (key_type: KeyType)
        ensures
            key_type == key_type_named(name@),
    {
        if str_eq(name, "ed25519") {
            KeyType::Ed25519
        } else if str_eq(name, "rsa2048") {
            KeyType::Rsa2048
        } else if str_eq(name, "rsa3072") {
            KeyType::Rsa3072
        } else if str_eq(name, "rsa4096") {
            KeyType::Rsa4096
        } else {
            KeyType::Unknown
        }
    }

    /// The kind of key named `s`, in any case. A name that is not known gives
    /// `Unknown`; no name is refused.
    pub fn from_str(s: &str) -> (res: Result<KeyType, String>)
        ensures
            res matches Ok(key_type) && key_type == parsed_key_type(s@),
    {
        let lower = to_lowercase(s);
        Ok(KeyType::from_lowercase(lower.as_str()))
    }

    /// The kind of RSA key with a modulus of `bits` bits: one of the three
    /// known sizes, or `Unknown`.
    pub fn from_rsa_bits(bits: u64) -> (key_type: KeyType)
        ensures
            key_type == key_type_of_rsa_bits(bits as int),
    {
        if bits == 2048 {
            KeyType::Rsa2048
        } else if bits == 3072 {
            KeyType::Rsa3072
        } else if bits == 4096 {
            KeyType::Rsa4096
        } else {
            KeyType::Unknown
        }
    }

    /// The name under which the kind of key is shown.
    pub fn to_string(&self) -> (label: String)
        ensures
            label@ == key_type_label(*self),
    {
        match self {
            KeyType::Ed25519 => String::from_str("Ed25519"),
            KeyType::Rsa2048 => String::from_str("Rsa2048"),
            KeyType::Rsa3072 => String::from_str("Rsa3072"),
            KeyType::Rsa4096 => String::from_str("Rsa4096"),
            KeyType::Unknown => String::from_str("Unknown"),
        }
    }
}

impl core::str::FromStr for KeyType {
    type Err = String;

    fn from_str(s: &str) -> (res: Result<Self, String>)
        ensures
            res matches Ok(key_type) && key_type == parsed_key_type(s@),
    {
        KeyType::from_str(s)
    }
}

impl KeyDecodeError {
    /// What the error says.
    pub fn to_string(&self) -> (message: String)
        ensures
            message@ == "key material is not a PEM-encoded RSA public key"@,
    {
        String::from_str("key material is not a PEM-encoded RSA public key")
    }
}

impl Crypto {
    /// The kind of the RSA public key with the PEM text `public_key`, by the
    /// size of its modulus. A text that encodes no RSA public key is an
    /// error; a key of a size that is not known is of the kind `Unknown`.
    pub fn identify_rsa_key_type(public_key: &str) -> (res: Result<KeyType, KeyDecodeError>)
        ensures
            res == rsa_key_type_of(public_key.spec_bytes()),
    {
        let pem = public_key.as_bytes();
        if pem.len() > PEM_MAX_LEN {
            return Err(KeyDecodeError);
        }
        match openssl_rsa_size(pem) {
            Ok(size) => Ok(KeyType::from_rsa_bits(size as u64 * 8)),
            Err(_) => Err(KeyDecodeError),
        }
    }

    /// The SHA-256 digest of the UTF-8 bytes of `data`: 32 bytes.
    pub fn sha256digest(data: &str) -> (digest: Vec<u8>)
        requires
            data.spec_bytes().len() < DIGEST_INPUT_LIMIT,
        ensures
            digest@ == sha256(data.spec_bytes()),
            digest@.len() == 32,
    {
        ring_sha256(data.as_bytes())
    }

    /// The SHA-256 digest of the UTF-8 bytes of `data` as 64 hexadecimal
    /// digits in lower case.
    pub fn sha256digest_hex(data: &str) -> (text: String)
        requires
            data.spec_bytes().len() < DIGEST_INPUT_LIMIT,
        ensures
            text@ == hex_lower(sha256(data.spec_bytes())),
            text@.len() == 64,
            forall|i: int| 0 <= i < 64 ==> is_lower_hex(#[trigger] text@[i]),
    {
        let digest = Self::sha256digest(data);
        proof {
            lemma_hex_lower_digits(digest@);
        }
        hex_encode(digest.as_slice())
    }

    /// Whether `signature` is a valid RSA signature of `message`, with PSS
    /// padding and SHA-256, under the key with the PEM text `public_key`.
    /// Whatever goes wrong on the way gives `false`.
    pub fn rsa_pss_verify(public_key: &str, signature: &[u8], message: &[u8]) -> (valid: bool)
        ensures
            valid == rsa_pss_verified(public_key@, signature@, message@),
    {
        let pem = public_key.as_bytes();
        if pem.len() > PEM_MAX_LEN {
            return false;
        }
        match openssl_rsa_pss_sha256_verify(pem, message, signature) {
            Ok(valid) => valid,
            Err(_) => false,
        }
    }

    /// Whether `signature` is a valid Ed25519 signature of `message` under
    /// the key with the hexadecimal text `public_key`. Whatever goes wrong on
    /// the way gives `false`.
    pub fn ed25519_verify(public_key: &str, signature: &[u8], message: &[u8]) -> (valid: bool)
        ensures
            valid == ed25519_verified(public_key@, signature@, message@),
    {
        match hex_decode(public_key.as_bytes()) {
            Ok(key) => {
                if message.len() as u64 >= DIGEST_INPUT_LIMIT - ED25519_PREFIX_LEN {
                    false
                } else {
                    ring_ed25519_verify(key.as_slice(), message, signature).is_ok()
                }
            },
            Err(_) => false,
        }
    }
}

/// Names with the same lower-case form, such as names that differ in the case
/// of their letters only, stand for the same kind of key.
pub proof fn lemma_key_type_ignores_case(a: Seq<char>, b: Seq<char>)
    requires
        lowercase_of(a) == lowercase_of(b),
    ensures
        parsed_key_type(a) == parsed_key_type(b),
{
}

/// The hexadecimal text of a byte string has two characters for each byte, and
/// each of them is a lower-case hexadecimal digit.
pub proof fn lemma_hex_lower_digits(data: Seq<u8>)
    ensures
        hex_lower(data).len() == 2 * data.len(),
        forall|i: int| 0 <= i < 2 * data.len() ==> is_lower_hex(#[trigger] hex_lower(data)[i]),
{
    assert forall|i: int| 0 <= i < 2 * data.len() implies is_lower_hex(
        #[trigger] hex_lower(data)[i],
    ) by {
        // Each half of a byte is below 16.
        let half = if i % 2 == 0 {
            data[i / 2] as int / 16
        } else {
            data[i / 2] as int % 16
        };
        assert(hex_lower(data)[i] == hex_digit(half));
    }
}

} // verus!

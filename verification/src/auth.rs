//! Request signing for the exchange: the message to sign, the signature
//! with RSA-PSS over SHA-256, and the four headers of a signed request.

use vstd::prelude::*;
use vstd::string::*;
use base64::Engine;
use rsa::pkcs1::DecodeRsaPrivateKey;
use rsa::pkcs8::DecodePrivateKey;
use rsa::signature::RandomizedSigner;
use rsa::signature::SignatureEncoding;
use crate::clock::now_millis;
use crate::text::{
    chars_of, find_char, find_from, first_index, first_match, lemma_first_index, push_signed,
    signed_decimal,
};

verus! {

/// An RSA private key of the `rsa` crate. Nothing inside it is visible here.
#[verifier::external_type_specification]
#[verifier::external_body]
pub struct ExRsaPrivateKey(rsa::RsaPrivateKey);

/// The error of the PKCS#1 decoder.
#[verifier::external_type_specification]
#[verifier::external_body]
pub struct ExPkcs1Error(rsa::pkcs1::Error);

/// The error of the PKCS#8 decoder.
#[verifier::external_type_specification]
#[verifier::external_body]
pub struct ExPkcs8Error(rsa::pkcs8::Error);

/// The error of a signer.
#[verifier::external_type_specification]
#[verifier::external_body]
pub struct ExSignatureError(rsa::signature::Error);

/// The key that `RsaPrivateKey::from_pkcs1_pem` decodes from a PEM text, if
/// it accepts the text.
pub uninterp spec fn pkcs1_key(pem: Seq<char>) -> Option<rsa::RsaPrivateKey>;

/// The key that `RsaPrivateKey::from_pkcs8_pem` decodes from a PEM text, if
/// it accepts the text.
pub uninterp spec fn pkcs8_key(pem: Seq<char>) -> Option<rsa::RsaPrivateKey>;

/// The text that the standard base64 engine, with padding, encodes bytes as.
pub uninterp spec fn base64_standard(bytes: Seq<u8>) -> Seq<char>;

/// `RsaPrivateKey::from_pkcs1_pem` of `rsa`, by the trait
/// `pkcs1::DecodeRsaPrivateKey`: decodes a key in the PKCS#1 format from PEM.
/// The decoder reads nothing but the text, so its result is `pkcs1_key` of it.
#[verifier::external_body]
fn decode_pkcs1(pem: &str) -> (r: Result<rsa::RsaPrivateKey, rsa::pkcs1::Error>)
    ensures
        match r {
            Ok(key) => pkcs1_key(pem@) == Some(key),
            Err(_) => pkcs1_key(pem@) is None,
        },
{
    rsa::RsaPrivateKey::from_pkcs1_pem(pem)
}

/// `RsaPrivateKey::from_pkcs8_pem` of `rsa`, by the trait
/// `pkcs8::DecodePrivateKey`: decodes a key in the PKCS#8 format from PEM.
/// The decoder reads nothing but the text, so its result is `pkcs8_key` of it.
#[verifier::external_body]
fn decode_pkcs8(pem: &str) -> (r: Result<rsa::RsaPrivateKey, rsa::pkcs8::Error>)
    ensures
        match r {
            Ok(key) => pkcs8_key(pem@) == Some(key),
            Err(_) => pkcs8_key(pem@) is None,
        },
{
    rsa::RsaPrivateKey::from_pkcs8_pem(pem)
}

/// `try_sign_with_rng` of `rsa::pss::SigningKey<Sha256>`, made from a copy of
/// `key`, with `rand::thread_rng` as the source of the salt; the signature as
/// bytes. The salt is drawn anew for each call, so two signatures over one
/// message differ, and nothing is claimed of the bytes. `thread_rng` gives up
/// where the system has no randomness to give.
#[verifier::external_body]
fn pss_sign(key: &rsa::RsaPrivateKey, message: &[u8]) -> (r: Result<
    Vec<u8>,
    rsa::signature::Error,
>) {
    let signer = rsa::pss::SigningKey::<sha2::Sha256>::new(key.clone());
    signer.try_sign_with_rng(&mut rand::thread_rng(), message).map(|signature| signature.to_vec())
}

/// `Engine::encode` of `base64`, on the engine `general_purpose::STANDARD`.
/// The text is a function of the bytes: `base64_standard` of them. `encode`
/// gives up where the length of the text would not fit a `usize`, which the
/// bound on the input rules out.
#[verifier::external_body]
fn base64_encode(bytes: &[u8]) -> (r: String)
    requires
        bytes@.len() <= 0x3fff_ffff,
    ensures
        r@ == base64_standard(bytes@),
{
    base64::engine::general_purpose::STANDARD.encode(bytes)
}

/// Why no signer or no signature could be had.
#[derive(Clone, Copy, Debug, PartialEq, Eq, Structural)]
pub enum AuthError {
    /// The key material carries the PKCS#1 marker and is no PKCS#1 key.
    BadPkcs1Key,
    /// The key material is no PKCS#8 key.
    BadPkcs8Key,
    /// The key gave no signature.
    SigningFailed,
}

/// The signer of the requests to the exchange.
pub struct KalshiAuth {
    key: rsa::RsaPrivateKey,
    pub key_id: String,
}

/// A signer as plain values: its key, and the identifier that the exchange
/// knows the key by.
pub struct AuthView {
    pub key: rsa::RsaPrivateKey,
    pub key_id: Seq<char>,
}

impl View for KalshiAuth {
    type V = AuthView;

    closed spec fn view(&self) -> AuthView {
        AuthView { key: self.key, key_id: self.key_id@ }
    }
}

/// The marker by which key material in the PKCS#1 format is known.
pub open spec fn pkcs1_marker() -> Seq<char> {
    "BEGIN RSA PRIVATE KEY"@
}

/// Whether key material is in the PKCS#1 format: it is, where it holds the
/// marker anywhere; else it is taken as PKCS#8.
pub open spec fn is_pkcs1(pem: Seq<char>) -> bool {
    first_match(pem, pkcs1_marker(), 0) is Some
}

/// The key that key material stands for, decoded in the format that its
/// marker tells.
pub open spec fn key_of(pem: Seq<char>) -> Option<rsa::RsaPrivateKey> {
    if is_pkcs1(pem) {
        pkcs1_key(pem)
    } else {
        pkcs8_key(pem)
    }
}

/// `path` up to its first `?`, which begins the query.
pub open spec fn without_query(path: Seq<char>) -> Seq<char> {
    match first_index(path, '?', 0) {
        Some(i) => path.subrange(0, i),
        None => path,
    }
}

/// The message that is signed for a request: the timestamp, the method and
/// the path without its query, one after the other.
pub open spec fn signing_text(timestamp: Seq<char>, method: Seq<char>, path: Seq<char>) -> Seq<
    char,
> {
    timestamp + method + without_query(path)
}

/// `path` up to its first `?`.
pub fn strip_query(path: &str) -> (r: &str)
    ensures
        r@ == without_query(path@),
{
    let chars = chars_of(path);
    match find_char(&chars, '?', 0) {
        Some(i) => {
            proof {
                lemma_first_index(path@, '?', 0);
            }
            path.substring_char(0, i)
        },
        None => path,
    }
}

/// The message to sign for a request at `timestamp`.
pub fn signing_message(timestamp: &str, method: &str, path: &str) -> (r: String)
    ensures
        r@ == signing_text(timestamp@, method@, path@),
{
    let mut message = String::from_str(timestamp);
    message.append(method);
    message.append(strip_query(path));
    message
}

/// The decimal text of a time in milliseconds.
pub fn timestamp_text(millis: i64) -> (r: String)
    ensures
        r@ == signed_decimal(millis as int),
{
    let mut text = String::new();
    push_signed(&mut text, millis as i128);
    assert(text@ =~= signed_decimal(millis as int));
    text
}

/// Whether `headers` are the four headers of a signed request: the key
/// identifier, the timestamp, the signature and the content type of the body.
pub open spec fn are_signed_headers(
    headers: Seq<(&'static str, String)>,
    key_id: Seq<char>,
    timestamp: Seq<char>,
    signature: Seq<char>,
) -> bool {
    &&& headers.len() == 4
    &&& headers[0].0@ == "KALSHI-ACCESS-KEY"@
    &&& headers[0].1@ == key_id
    &&& headers[1].0@ == "KALSHI-ACCESS-TIMESTAMP"@
    &&& headers[1].1@ == timestamp
    &&& headers[2].0@ == "KALSHI-ACCESS-SIGNATURE"@
    &&& headers[2].1@ == signature
    &&& headers[3].0@ == "Content-Type"@
    &&& headers[3].1@ == "application/json"@
}

/// The longest signature that is encoded.
pub open spec fn signature_limit() -> int {
    0x3fff_ffff
}

/// Whether `result` is what a signer's answer leads to for a request by
/// `key_id` at `millis`: the signed headers with the signature in base64,
/// where it gave one of encodable length, and the failure to sign otherwise.
pub open spec fn is_outcome_of(
    result: Result<Vec<(&'static str, String)>, AuthError>,
    key_id: Seq<char>,
    millis: i64,
    signature: Option<Seq<u8>>,
) -> bool {
    match signature {
        Some(bytes) => if bytes.len() <= signature_limit() {
            result matches Ok(headers) && are_signed_headers(
                headers@,
                key_id,
                signed_decimal(millis as int),
                base64_standard(bytes),
            )
        } else {
            result == Err::<Vec<(&'static str, String)>, AuthError>(AuthError::SigningFailed)
        },
        None => result == Err::<Vec<(&'static str, String)>, AuthError>(AuthError::SigningFailed),
    }
}

/// A signer's answer as plain values.
pub open spec fn answer_view(signature: Option<Vec<u8>>) -> Option<Seq<u8>> {
    match signature {
        Some(bytes) => Some(bytes@),
        None => None,
    }
}

/// The headers of a request by `key_id` at `millis`, from what the signer
/// answered: the bytes of its signature, or nothing.
pub fn headers_from(key_id: &str, millis: i64, signature: Option<Vec<u8>>) -> (r: Result<
    Vec<(&'static str, String)>,
    AuthError,
>)
    ensures
        is_outcome_of(r, key_id@, millis, answer_view(signature)),
{
    match signature {
        Some(bytes) => {
            if bytes.len() > 0x3fff_ffff {
                return Err(AuthError::SigningFailed);
            }
            let encoded = base64_encode(bytes.as_slice());
            Ok(signed_headers(key_id, timestamp_text(millis), encoded))
        },
        None => Err(AuthError::SigningFailed),
    }
}

/// The headers that sign a request by `key_id` at `millis`. What is handed
/// to `sign` is the message of `signing_message`, as bytes: the timestamp
/// in decimal, which is the timestamp header too, then the method, then the
/// path up to its first `?`. The headers are those of `headers_from` for
/// what `sign` answered.
pub fn headers_with<F: Fn(&[u8]) -> Option<Vec<u8>>>(
    key_id: &str,
    millis: i64,
    method: &str,
    path: &str,
    sign: F,
) -> (r: Result<Vec<(&'static str, String)>, AuthError>)
    requires
        forall|message: &[u8]| call_requires(sign, (message,)),
    ensures
        exists|message: &str, bytes: &[u8], signature: Option<Vec<u8>>|
            #![trigger call_ensures(sign, (bytes,), signature), message.spec_bytes()]
            message@ == signing_text(signed_decimal(millis as int), method@, path@) && bytes@
                == message.spec_bytes() && call_ensures(sign, (bytes,), signature)
                && is_outcome_of(r, key_id@, millis, answer_view(signature)),
{
    let timestamp = timestamp_text(millis);
    let message = signing_message(timestamp.as_str(), method, path);
    let text = message.as_str();
    let bytes = text.as_bytes();
    let signature = sign(bytes);
    let ghost answer = signature;
    let r = headers_from(key_id, millis, signature);
    assert(text@ == signing_text(signed_decimal(millis as int), method@, path@) && bytes@
        == text.spec_bytes() && call_ensures(sign, (bytes,), answer) && is_outcome_of(
        r,
        key_id@,
        millis,
        answer_view(answer),
    ));
    r
}

/// Two sets of headers for requests by one key at one time agree in all but
/// the signature: in the key identifier, the timestamp and the content type.
pub proof fn lemma_headers_agree_but_for_the_signature(
    first: Result<Vec<(&'static str, String)>, AuthError>,
    second: Result<Vec<(&'static str, String)>, AuthError>,
    key_id: Seq<char>,
    millis: i64,
    one: Option<Seq<u8>>,
    other: Option<Seq<u8>>,
)
    requires
        is_outcome_of(first, key_id, millis, one),
        is_outcome_of(second, key_id, millis, other),
        first is Ok,
        second is Ok,
    ensures
        first->Ok_0@.len() == 4 && second->Ok_0@.len() == 4,
        forall|i: int| 0 <= i < 4 ==> first->Ok_0@[i].0@ == second->Ok_0@[i].0@,
        first->Ok_0@[0].1@ == second->Ok_0@[0].1@,
        first->Ok_0@[1].1@ == second->Ok_0@[1].1@,
        first->Ok_0@[1].1@ == signed_decimal(millis as int),
        first->Ok_0@[3].1@ == second->Ok_0@[3].1@,
{
}

/// The four headers of a signed request.
pub fn signed_headers(key_id: &str, timestamp: String, signature: String) -> (r: Vec<
    (&'static str, String),
>)
    ensures
        are_signed_headers(r@, key_id@, timestamp@, signature@),
{
    let mut headers: Vec<(&'static str, String)> = Vec::new();
    headers.push(("KALSHI-ACCESS-KEY", String::from_str(key_id)));
    headers.push(("KALSHI-ACCESS-TIMESTAMP", timestamp));
    headers.push(("KALSHI-ACCESS-SIGNATURE", signature));
    headers.push(("Content-Type", String::from_str("application/json")));
    headers
}

impl KalshiAuth {
    /// The identifier that the exchange knows the key by.
    pub fn key_id(&self) -> (r: &str)
        ensures
            r@ == self@.key_id,
    {
        self.key_id.as_str()
    }

    /// Loads the signer from PEM key material. Material that holds the
    /// marker `BEGIN RSA PRIVATE KEY` is decoded as PKCS#1, any other as
    /// PKCS#8; the error tells which decoder refused it.
    pub fn new(key_id: String, pem: &str) -> (r: Result<KalshiAuth, AuthError>)
        ensures
            match r {
                Ok(auth) => key_of(pem@) == Some(auth@.key) && auth@.key_id == key_id@,
                Err(e) => key_of(pem@) is None && e == if is_pkcs1(pem@) {
                    AuthError::BadPkcs1Key
                } else {
                    AuthError::BadPkcs8Key
                },
            },
    {
        let text = chars_of(pem);
        let marker = chars_of("BEGIN RSA PRIVATE KEY");
        if find_from(&text, &marker, 0).is_some() {
            match decode_pkcs1(pem) {
                Ok(key) => Ok(KalshiAuth { key, key_id }),
                Err(_) => Err(AuthError::BadPkcs1Key),
            }
        } else {
            match decode_pkcs8(pem) {
                Ok(key) => Ok(KalshiAuth { key, key_id }),
                Err(_) => Err(AuthError::BadPkcs8Key),
            }
        }
    }

    /// The headers that sign a request made at `millis` milliseconds since
    /// the epoch: `headers_with`, with the key of this signer behind `sign`.
    /// The salt of the signature is drawn anew at each call.
    pub fn headers_at(&self, millis: i64, method: &str, path: &str) -> (r: Result<
        Vec<(&'static str, String)>,
        AuthError,
    >)
        ensures
            exists|signature: Option<Seq<u8>>|
                #[trigger] is_outcome_of(r, self@.key_id, millis, signature),
    {
        let sign = |message: &[u8]| -> (answer: Option<Vec<u8>>)
            {
                match pss_sign(&self.key, message) {
                    Ok(bytes) => Some(bytes),
                    Err(_) => None,
                }
            };
        let r = headers_with(self.key_id.as_str(), millis, method, path, sign);
        proof {
            let (message, bytes, signature) = choose|
                message: &str,
                bytes: &[u8],
                signature: Option<Vec<u8>>,
            |
                #![trigger call_ensures(sign, (bytes,), signature), message.spec_bytes()]
                message@ == signing_text(signed_decimal(millis as int), method@, path@) && bytes@
                    == message.spec_bytes() && call_ensures(sign, (bytes,), signature)
                    && is_outcome_of(r, self.key_id@, millis, answer_view(signature));
            assert(is_outcome_of(r, self@.key_id, millis, answer_view(signature)));
        }
        r
    }

    /// The headers that sign a request made now, by the system clock.
    pub fn headers(&self, method: &str, path: &str) -> (r: Result<
        Vec<(&'static str, String)>,
        AuthError,
    >)
        ensures
            exists|millis: i64, signature: Option<Seq<u8>>|
                #[trigger] is_outcome_of(r, self@.key_id, millis, signature),
    {
        self.headers_at(now_millis(), method, path)
    }
}

} // verus!

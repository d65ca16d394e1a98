//! Keys, hashes and signatures. They are computed by `oan_crypto`; here stands what the node
//! hands over and what it makes of the answers.

use crate::json::{self, JsonModel};
use crate::text;
use base64::Engine;
use serde_json::Value;
use vstd::prelude::*;

verus! {

/// The suites of signature and hash algorithm.
#[derive(Clone, Copy, Debug, PartialEq, Eq, Structural)]
pub enum CryptoSuite {
    Ed25519Sha256Legacy,
    Ed25519Sha256,
    Sm2Sm3,
}

/// `oan_crypto::SigningKey`.
#[verifier::external_type_specification]
#[verifier::external_body]
pub struct ExSigningKey(oan_crypto::SigningKey);

/// A key that the node signs with, the suite that it was read under, and the bytes that it
/// was read from.
pub struct Signer {
    suite: CryptoSuite,
    pub(crate) key: oan_crypto::SigningKey,
    secret: Vec<u8>,
}

/// The hash of a JSON value under a suite.
pub uninterp spec fn json_hash(suite: CryptoSuite, value: JsonModel) -> Seq<char>;

/// Whether a verification method, as JSON, holds a key that signatures can be verified with.
pub uninterp spec fn holds_key(method: JsonModel) -> bool;

/// Whether a proof, as JSON, is a signature of the payload by the key of the verification
/// method.
pub uninterp spec fn signature_holds(payload: JsonModel, proof: JsonModel, method: JsonModel) -> bool;

/// Whether a proof, as JSON, is a signature of the payload by the key.
pub uninterp spec fn signed_with(
    key: oan_crypto::SigningKey,
    payload: JsonModel,
    proof: JsonModel,
) -> bool;

/// The bytes that a base64 text (URL-safe, unpadded) stands for, or what is wrong with it.
pub uninterp spec fn base64_bytes(text: Seq<char>) -> Result<Seq<u8>, Seq<char>>;

/// The secret key of the suite that bytes stand for, if they stand for one.
pub uninterp spec fn secret_key(suite: CryptoSuite, bytes: Seq<u8>) -> Option<
    oan_crypto::SigningKey,
>;

/// `oan_crypto::hash_json_with_suite`, named by `json_hash`: the hash of the value's canonical
/// text. It fails where the value cannot be serialized, which a `Value` always can.
#[verifier::external_body]
pub(crate) fn hash_json_with_suite(suite: CryptoSuite, value: &Value) -> (result: Result<
    String,
    String,
>)
    ensures
        result is Ok,
        result->Ok_0@ == json_hash(suite, json::contents(*value)),
{
    let suite = match suite {
        CryptoSuite::Ed25519Sha256Legacy => oan_core::CryptoSuite::Ed25519Sha256Legacy,
        CryptoSuite::Ed25519Sha256 => oan_core::CryptoSuite::Ed25519Sha256,
        CryptoSuite::Sm2Sm3 => oan_core::CryptoSuite::Sm2Sm3,
    };
    oan_crypto::hash_json_with_suite(suite, value).map_err(|error| error.to_string())
}

/// `oan_crypto::verifying_key_from_method`, named by `holds_key`: whether it finds a key in
/// the method. What is no verification method holds none.
#[verifier::external_body]
pub(crate) fn method_holds_key(method: &Value) -> (found: bool)
    ensures
        found == holds_key(json::contents(*method)),
{
    match serde_json::from_value(method.clone()) {
        Ok(method) => oan_crypto::verifying_key_from_method(&method).is_ok(),
        Err(_) => false,
    }
}

/// `oan_crypto::verify_payload_with_proof` with the key of the method, named by
/// `signature_holds`. What is no proof, or no method with a key, verifies nothing.
#[verifier::external_body]
pub(crate) fn verify_payload_with_proof(payload: &Value, proof: &Value, method: &Value) -> (found:
    bool)
    ensures
        found == signature_holds(
            json::contents(*payload),
            json::contents(*proof),
            json::contents(*method),
        ),
{
    let method = serde_json::from_value(method.clone());
    let proof = serde_json::from_value(proof.clone());
    match (method.map(|method| oan_crypto::verifying_key_from_method(&method)), proof) {
        (Ok(Ok(key)), Ok(proof)) => {
            oan_crypto::verify_payload_with_proof(payload, &proof, &key).is_ok()
        },
        _ => false,
    }
}

/// `oan_crypto::verify_payload_with_proof` with the public half of a secret key, named by
/// `signed_with`. What is no proof verifies nothing.
#[verifier::external_body]
pub(crate) fn proof_is_by(key: &oan_crypto::SigningKey, payload: &Value, proof: &Value) -> (found:
    bool)
    ensures
        found == signed_with(*key, json::contents(*payload), json::contents(*proof)),
{
    match serde_json::from_value(proof.clone()) {
        Ok(proof) => {
            oan_crypto::verify_payload_with_proof(payload, &proof, &key.verifying_key()).is_ok()
        },
        Err(_) => false,
    }
}

/// `base64`'s URL-safe engine without padding, named by `base64_bytes`. The error is given by
/// its text.
#[verifier::external_body]
fn decode_base64(encoded: &str) -> (result: Result<Vec<u8>, String>)
    ensures
        match base64_bytes(encoded@) {
            Ok(bytes) => result is Ok && result->Ok_0@ == bytes,
            Err(complaint) => result is Err && result->Err_0@ == complaint,
        },
{
    base64::engine::general_purpose::URL_SAFE_NO_PAD.decode(encoded).map_err(
        |error| error.to_string(),
    )
}

/// `oan_crypto::signing_key_from_bytes`, named by `secret_key`. The only error is that of an
/// invalid key.
#[verifier::external_body]
fn signing_key_from_bytes(suite: CryptoSuite, bytes: &Vec<u8>) -> (result: Result<
    oan_crypto::SigningKey,
    String,
>)
    ensures
        match secret_key(suite, bytes@) {
            Some(key) => result is Ok && result->Ok_0 == key,
            None => result is Err && result->Err_0@ == "invalid signing key"@,
        },
{
    let suite = match suite {
        CryptoSuite::Ed25519Sha256Legacy => oan_core::CryptoSuite::Ed25519Sha256Legacy,
        CryptoSuite::Ed25519Sha256 => oan_core::CryptoSuite::Ed25519Sha256,
        CryptoSuite::Sm2Sm3 => oan_core::CryptoSuite::Sm2Sm3,
    };
    oan_crypto::signing_key_from_bytes(suite, bytes).map_err(|error| error.to_string())
}

/// The suite that an algorithm belongs to.
pub open spec fn suite_of(algorithm: Seq<char>) -> Option<CryptoSuite> {
    if algorithm == "Ed25519"@ {
        Some(CryptoSuite::Ed25519Sha256)
    } else if algorithm == "SM2"@ {
        Some(CryptoSuite::Sm2Sm3)
    } else {
        None
    }
}

/// What reading a key file comes to: the suite and the bytes of the key, or what is wrong
/// with the file.
pub open spec fn key_verdict(algorithm: Seq<char>, secret: Seq<char>) -> Result<
    (CryptoSuite, Seq<u8>),
    Seq<char>,
> {
    match suite_of(algorithm) {
        None => Err("unsupported_algorithm: "@ + algorithm),
        Some(suite) => match base64_bytes(secret) {
            Err(complaint) => Err(complaint),
            Ok(bytes) => match secret_key(suite, bytes) {
                Some(_) => Ok((suite, bytes)),
                None => Err("invalid signing key"@),
            },
        },
    }
}

/// The suite that an algorithm belongs to.
pub fn crypto_suite_from_algorithm(value: &str) -> (result: Result<CryptoSuite, String>)
    ensures
        match suite_of(value@) {
            Some(suite) => result == Ok::<CryptoSuite, String>(suite),
            None => result is Err && result->Err_0@ == "unsupported_algorithm: "@ + value@,
        },
{
    if text::same_text(value, "Ed25519") {
        return Ok(CryptoSuite::Ed25519Sha256);
    }
    if text::same_text(value, "SM2") {
        return Ok(CryptoSuite::Sm2Sm3);
    }
    Err(text::joined("unsupported_algorithm: ", value))
}

/// The largest secret key of SM2, one less than the order of its group, with which there is
/// no signature of anything.
pub open spec fn last_sm2_secret() -> Seq<u8> {
    seq![
        255, 255, 255, 254, 255, 255, 255, 255, 255, 255, 255, 255, 255, 255, 255, 255,
        114, 3, 223, 107, 33, 198, 5, 43, 83, 187, 244, 9, 57, 213, 65, 34,
    ]
}

impl Signer {
    #[verifier::type_invariant]
    spec fn well_formed(self) -> bool {
        secret_key(self.suite, self.secret@) == Some(self.key)
    }

    /// The suite of the key.
    pub closed spec fn suite(self) -> CryptoSuite {
        self.suite
    }

    /// The bytes of the key.
    pub closed spec fn secret(self) -> Seq<u8> {
        self.secret@
    }

    /// The key itself.
    pub closed spec fn key(self) -> oan_crypto::SigningKey {
        self.key
    }

    /// Whether there are signatures with the key.
    pub open spec fn signs(self) -> bool {
        self.suite() != CryptoSuite::Sm2Sm3 || self.secret() != last_sm2_secret()
    }

    /// The key in a key file, which names its algorithm and holds the secret in base64.
    pub fn load(algorithm: &str, secret: &str) -> (result: Result<Signer, String>)
        ensures
            match key_verdict(algorithm@, secret@) {
                Ok((suite, bytes)) => {
                    &&& result is Ok
                    &&& result->Ok_0.suite() == suite
                    &&& result->Ok_0.secret() == bytes
                    &&& Some(result->Ok_0.key()) == secret_key(suite, bytes)
                },
                Err(complaint) => result is Err && result->Err_0@ == complaint,
            },
    {
        let suite = match crypto_suite_from_algorithm(algorithm) {
            Ok(suite) => suite,
            Err(message) => {
                return Err(message);
            },
        };
        let bytes = match decode_base64(secret) {
            Ok(bytes) => bytes,
            Err(message) => {
                return Err(message);
            },
        };
        match signing_key_from_bytes(suite, &bytes) {
            Ok(key) => Ok(Signer { suite, key, secret: bytes }),
            Err(message) => Err(message),
        }
    }

    /// The suite of the key.
    pub fn crypto_suite(&self) -> (suite: CryptoSuite)
        ensures
            suite == self.suite(),
    {
        self.suite
    }

    /// The key itself, to sign with.
    pub fn signing_key(&self) -> (key: &oan_crypto::SigningKey)
        ensures
            *key == self.key(),
    {
        &self.key
    }

    /// Whether there are signatures with the key.
    pub fn can_sign(&self) -> (found: bool)
        ensures
            found == self.signs(),
    {
        if self.suite != CryptoSuite::Sm2Sm3 {
            return true;
        }
        let last: [u8; 32] = [
            255, 255, 255, 254, 255, 255, 255, 255, 255, 255, 255, 255, 255, 255, 255, 255,
            114, 3, 223, 107, 33, 198, 5, 43, 83, 187, 244, 9, 57, 213, 65, 34,
        ];
        assert(last@ == last_sm2_secret());
        if self.secret.len() != 32 {
            return true;
        }
        let mut i: usize = 0;
        while i < 32
            invariant
                i <= 32,
                self.secret@.len() == 32,
                last@.len() == 32,
                last@ == last_sm2_secret(),
                forall|j: int| 0 <= j < i ==> self.secret@[j] == last@[j],
            decreases 32 - i,
        {
            if self.secret[i] != last[i] {
                return true;
            }
            i = i + 1;
        }
        assert(self.secret@ =~= last@);
        false
    }
}


/// There are two algorithms, each with a suite of its own, and everything else is refused by its
/// name.
pub proof fn law_algorithms_have_their_suite(algorithm: Seq<char>, secret: Seq<char>)
    ensures
        suite_of("Ed25519"@) == Some(CryptoSuite::Ed25519Sha256),
        suite_of("SM2"@) == Some(CryptoSuite::Sm2Sm3),
        algorithm != "Ed25519"@ && algorithm != "SM2"@ ==> suite_of(algorithm) is None
            && key_verdict(algorithm, secret) == Err::<(CryptoSuite, Seq<u8>), Seq<char>>(
            "unsupported_algorithm: "@ + algorithm,
        ),
{
    reveal_strlit("Ed25519");
    reveal_strlit("SM2");
    assert("Ed25519"@.len() == 7 && "SM2"@.len() == 3);
}

/// A key is read from the bytes that its text stands for, under the suite of its algorithm, and
/// is refused if the text is no base64 or the bytes are no key of the suite.
pub proof fn law_keys_are_read_from_their_bytes(
    algorithm: Seq<char>,
    secret: Seq<char>,
    suite: CryptoSuite,
    bytes: Seq<u8>,
    complaint: Seq<char>,
)
    requires
        suite_of(algorithm) == Some(suite),
    ensures
        base64_bytes(secret) == Ok::<Seq<u8>, Seq<char>>(bytes) && secret_key(suite, bytes) is Some
            ==> key_verdict(algorithm, secret) == Ok::<(CryptoSuite, Seq<u8>), Seq<char>>(
            (suite, bytes),
        ),
        base64_bytes(secret) == Ok::<Seq<u8>, Seq<char>>(bytes) && secret_key(suite, bytes) is None
            ==> key_verdict(algorithm, secret) == Err::<(CryptoSuite, Seq<u8>), Seq<char>>(
            "invalid signing key"@,
        ),
        base64_bytes(secret) == Err::<Seq<u8>, Seq<char>>(complaint) ==> key_verdict(
            algorithm,
            secret,
        ) == Err::<(CryptoSuite, Seq<u8>), Seq<char>>(complaint),
{
}

} // verus!

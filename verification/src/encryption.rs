//! Symmetric encryption of conversation content: AES-256-GCM with
//! HKDF-derived per-conversation keys. The ciphers themselves are
//! trusted wrappers; key handling, framing, and parsing are
//! verified. Stored messages travel as base64 over a fixed byte
//! frame: nonce, salt, key id, ciphertext.

use vstd::prelude::*;
use vstd::utf8::encode_utf8;
use aes_gcm::aead::Aead;
use aes_gcm::{Aes256Gcm, Key, KeyInit, Nonce};
use sha2::{Digest, Sha256};
use crate::crypto;
use crate::crypto::{base64_of, bytes_to_string};
use crate::strutil::copy_range;

verus! {

/// What a stored ciphertext needs for its own decryption, besides
/// the key: the nonce, the key-derivation salt, and the key id kept
/// for rotation.
pub struct EncryptionMetadata {
    pub nonce: Vec<u8>,
    pub salt: Vec<u8>,
    pub key_id: String,
}

/// A ciphertext with its metadata.
pub struct EncryptedData {
    pub ciphertext: Vec<u8>,
    pub metadata: EncryptionMetadata,
}

/// Failures of the encryption service.
#[derive(Clone, Copy, Debug, PartialEq, Eq, Structural)]
pub enum EncryptionError {
    KeyGenerationFailed,
    EncryptionFailed,
    DecryptionFailed,
    InvalidMetadata,
    SerializationError,
}

/// The AES-256-GCM ciphertext (tag included) for a key, nonce, and
/// plaintext. A deterministic function of the three.
pub uninterp spec fn aes_gcm_seal(key: Seq<u8>, nonce: Seq<u8>, plain: Seq<u8>) -> Seq<u8>;

/// Relies on aes-gcm's `Aes256Gcm` encrypt: deterministic in key,
/// nonce, and plaintext, appending a 16-byte tag.
#[verifier::external_body]
fn aes256_gcm_encrypt(key: &[u8], nonce: &[u8], data: &[u8]) -> (r: Result<Vec<u8>, ()>)
    requires
        key@.len() == 32,
        nonce@.len() == 12,
    ensures
        r matches Ok(ct) ==> ct@ == aes_gcm_seal(key@, nonce@, data@),
        r matches Ok(ct) ==> ct@.len() == data@.len() + 16,
{
    let cipher = Aes256Gcm::new(Key::<Aes256Gcm>::from_slice(key));
    cipher.encrypt(Nonce::from_slice(nonce), data).map_err(|_| ())
}

/// The largest ciphertext AES-GCM accepts: 2^36 bytes of plaintext
/// plus the 16-byte tag.
pub const GCM_MAX_CIPHERTEXT_BYTES: u64 = 0x10_0000_0010;

/// Relies on aes-gcm's `Aes256Gcm` decrypt: it accepts exactly the
/// ciphertexts sealed under the same key and nonce, and returns the
/// plaintext that was sealed. Inputs beyond the cipher's size limit
/// are rejected outright, so nothing is claimed of them.
#[verifier::external_body]
fn aes256_gcm_decrypt(key: &[u8], nonce: &[u8], ct: &[u8]) -> (r: Result<Vec<u8>, ()>)
    requires
        key@.len() == 32,
        nonce@.len() == 12,
    ensures
        r matches Ok(p) ==> ct@ == aes_gcm_seal(key@, nonce@, p@),
        r matches Ok(p) ==> forall|q: Seq<u8>| ct@ == aes_gcm_seal(key@, nonce@, q) ==> q == p@,
        r is Err ==> ct@.len() > GCM_MAX_CIPHERTEXT_BYTES || (forall|q: Seq<u8>|
            ct@ != aes_gcm_seal(key@, nonce@, q)),
{
    let cipher = Aes256Gcm::new(Key::<Aes256Gcm>::from_slice(key));
    cipher.decrypt(Nonce::from_slice(nonce), ct).map_err(|_| ())
}

/// The 32-byte HKDF-SHA256 output keyed by input key material, salt,
/// and info. A deterministic function of the three.
pub uninterp spec fn hkdf_okm(ikm: Seq<u8>, salt: Seq<u8>, info: Seq<u8>) -> Seq<u8>;

/// Relies on hkdf's HKDF-SHA256, expanded to 32 bytes; expansion to
/// that length has no failure mode.
#[verifier::external_body]
fn hkdf_sha256_32(ikm: &[u8], salt: &[u8], info: &[u8]) -> (r: Vec<u8>)
    ensures
        r@ == hkdf_okm(ikm@, salt@, info@),
        r@.len() == 32,
{
    let hk = hkdf::Hkdf::<Sha256>::new(Some(salt), ikm);
    let mut okm = [0u8; 32];
    hk.expand(info, &mut okm).expect("a 32-byte output is always valid");
    okm.to_vec()
}

/// The SHA-256 digest of a byte string. A deterministic function
/// of the input alone.
pub uninterp spec fn sha256_of(data: Seq<u8>) -> Seq<u8>;

/// Relies on sha2's `Sha256`: a 32-byte digest of the input alone.
#[verifier::external_body]
fn sha256_digest(data: &[u8]) -> (r: Vec<u8>)
    ensures
        r@ == sha256_of(data@),
        r@.len() == 32,
{
    let mut hasher = Sha256::new();
    hasher.update(data);
    hasher.finalize().to_vec()
}

/// Relies on uuid's `new_v4`: a fresh hyphenated UUID string, 36
/// ASCII characters.
#[verifier::external_body]
fn new_key_id() -> (r: String)
    ensures
        r@.len() == 36,
        encode_utf8(r@).len() == 36,
{
    uuid::Uuid::new_v4().to_string()
}

/// The byte frame a stored ciphertext travels in: nonce, salt, one
/// length byte, key id bytes, ciphertext.
pub open spec fn spec_frame(nonce: Seq<u8>, salt: Seq<u8>, kid: Seq<u8>, ct: Seq<u8>) -> Seq<u8> {
    nonce + salt + seq![kid.len() as u8] + kid + ct
}

/// Serializes encrypted data into its byte frame.
fn build_frame(e: &EncryptedData) -> (r: Vec<u8>)
    requires
        e.metadata.nonce@.len() == 12,
        e.metadata.salt@.len() == 32,
        encode_utf8(e.metadata.key_id@).len() <= 255,
    ensures
        r@ == spec_frame(
            e.metadata.nonce@,
            e.metadata.salt@,
            encode_utf8(e.metadata.key_id@),
            e.ciphertext@,
        ),
{
    let kid_bytes = e.metadata.key_id.as_str().as_bytes();
    let mut out: Vec<u8> = Vec::new();
    out.extend_from_slice(e.metadata.nonce.as_slice());
    out.extend_from_slice(e.metadata.salt.as_slice());
    out.push(kid_bytes.len() as u8);
    out.extend_from_slice(kid_bytes);
    out.extend_from_slice(e.ciphertext.as_slice());
    proof {
        assert(out@ =~= spec_frame(
            e.metadata.nonce@,
            e.metadata.salt@,
            encode_utf8(e.metadata.key_id@),
            e.ciphertext@,
        ));
    }
    out
}

/// Parses a byte frame back into encrypted data; `None` when the
/// frame is malformed.
fn parse_frame(b: &[u8]) -> (r: Option<EncryptedData>)
    ensures
        r matches Some(e) ==> {
            &&& e.metadata.nonce@.len() == 12
            &&& e.metadata.salt@.len() == 32
            &&& encode_utf8(e.metadata.key_id@).len() <= 255
            &&& b@ == spec_frame(
                e.metadata.nonce@,
                e.metadata.salt@,
                encode_utf8(e.metadata.key_id@),
                e.ciphertext@,
            )
        },
{
    let blen = b.len();
    if blen < 45 {
        return None;
    }
    let nonce = copy_range(b, 0, 12);
    let salt = copy_range(b, 12, 44);
    let kid_len = b[44] as usize;
    if blen - 45 < kid_len {
        return None;
    }
    let kid_bytes = copy_range(b, 45, 45 + kid_len);
    let key_id = match bytes_to_string(kid_bytes) {
        Ok(s) => s,
        Err(_) => {
            return None;
        },
    };
    let ciphertext = copy_range(b, 45 + kid_len, blen);
    let e = EncryptedData {
        ciphertext,
        metadata: EncryptionMetadata { nonce, salt, key_id },
    };
    proof {
        assert(b@ =~= spec_frame(
            e.metadata.nonce@,
            e.metadata.salt@,
            encode_utf8(e.metadata.key_id@),
            e.ciphertext@,
        ));
    }
    Some(e)
}

/// Whether `s` is the stored form of `msg` sealed under `key`: the
/// base64 of a well-formed frame whose ciphertext is the AES-GCM
/// sealing of the message under the frame's own nonce.
pub open spec fn is_sealed_message(s: Seq<char>, key: Seq<u8>, msg: Seq<char>) -> bool {
    exists|n: Seq<u8>, sa: Seq<u8>, kid: Seq<u8>|
        n.len() == 12 && sa.len() == 32 && kid.len() <= 255 && s == #[trigger] base64_of(
            spec_frame(n, sa, kid, aes_gcm_seal(key, n, encode_utf8(msg))),
        )
}

proof fn lemma_sealed_message_intro(
    s: Seq<char>,
    key: Seq<u8>,
    msg: Seq<char>,
    n: Seq<u8>,
    sa: Seq<u8>,
    kid: Seq<u8>,
)
    requires
        n.len() == 12,
        sa.len() == 32,
        kid.len() <= 255,
        s == base64_of(spec_frame(n, sa, kid, aes_gcm_seal(key, n, encode_utf8(msg)))),
    ensures
        is_sealed_message(s, key, msg),
{
}

/// A well-formed frame determines its components: the nonce and salt
/// have fixed widths, and the length byte pins where the key id ends.
proof fn lemma_frame_injective(
    n1: Seq<u8>,
    sa1: Seq<u8>,
    kid1: Seq<u8>,
    ct1: Seq<u8>,
    n2: Seq<u8>,
    sa2: Seq<u8>,
    kid2: Seq<u8>,
    ct2: Seq<u8>,
)
    requires
        n1.len() == 12,
        sa1.len() == 32,
        kid1.len() <= 255,
        n2.len() == 12,
        sa2.len() == 32,
        kid2.len() <= 255,
        spec_frame(n1, sa1, kid1, ct1) == spec_frame(n2, sa2, kid2, ct2),
    ensures
        n1 == n2,
        sa1 == sa2,
        kid1 == kid2,
        ct1 == ct2,
{
    let f1 = spec_frame(n1, sa1, kid1, ct1);
    let f2 = spec_frame(n2, sa2, kid2, ct2);
    assert(f1.len() == 45 + kid1.len() + ct1.len());
    assert(f2.len() == 45 + kid2.len() + ct2.len());
    assert(f1[44] == kid1.len() as u8);
    assert(f2[44] == kid2.len() as u8);
    assert(kid1.len() == kid2.len());
    assert forall|i: int| 0 <= i < 12 implies n1[i] == n2[i] by {
        assert(f1[i] == n1[i]);
        assert(f2[i] == n2[i]);
    }
    assert(n1 =~= n2);
    assert forall|i: int| 0 <= i < 32 implies sa1[i] == sa2[i] by {
        assert(f1[12 + i] == sa1[i]);
        assert(f2[12 + i] == sa2[i]);
    }
    assert(sa1 =~= sa2);
    assert forall|i: int| 0 <= i < kid1.len() implies kid1[i] == kid2[i] by {
        assert(f1[45 + i] == kid1[i]);
        assert(f2[45 + i] == kid2[i]);
    }
    assert(kid1 =~= kid2);
    assert forall|i: int| 0 <= i < ct1.len() implies ct1[i] == ct2[i] by {
        assert(f1[45 + kid1.len() + i] == ct1[i]);
        assert(f2[45 + kid2.len() + i] == ct2[i]);
    }
    assert(ct1 =~= ct2);
}

/// Encrypts and decrypts conversation content.
#[derive(Clone, Copy, Debug)]
pub struct EncryptionService {
    _private: (),
}

impl EncryptionService {
    pub fn new() -> (r: EncryptionService) {
        EncryptionService { _private: () }
    }

    /// A fresh random 256-bit key.
    pub fn generate_key(&self) -> (r: Result<Vec<u8>, EncryptionError>)
        ensures
            r matches Ok(k) ==> k@.len() == 32,
            r is Err ==> r == Err::<Vec<u8>, EncryptionError>(EncryptionError::KeyGenerationFailed),
    {
        match crypto::secure_random_bytes(32) {
            Some(k) => Ok(k),
            None => Err(EncryptionError::KeyGenerationFailed),
        }
    }

    /// Derives the conversation-specific key from the master key and
    /// the conversation's 16-byte identifier. Derivation always
    /// succeeds, and the same inputs always yield the same key.
    pub fn derive_conversation_key(&self, master_key: &[u8], conversation_id: &[u8]) -> (r: Result<
        Vec<u8>,
        EncryptionError,
    >)
        ensures
            r matches Ok(k) && k@ == hkdf_okm(
                master_key@,
                conversation_id@,
                encode_utf8("circle_conversation_key"@),
            ) && k@.len() == 32,
    {
        Ok(hkdf_sha256_32(master_key, conversation_id, ("circle_conversation_key").as_bytes()))
    }

    /// Encrypts `data` under a 32-byte key with a fresh random nonce
    /// and salt.
    pub fn encrypt(&self, data: &[u8], key: &[u8]) -> (r: Result<EncryptedData, EncryptionError>)
        ensures
            key@.len() != 32 ==> r == Err::<EncryptedData, EncryptionError>(
                EncryptionError::KeyGenerationFailed,
            ),
            key@.len() == 32 ==> match r {
                Ok(e) => {
                    &&& e.metadata.nonce@.len() == 12
                    &&& e.metadata.salt@.len() == 32
                    &&& e.metadata.key_id@.len() == 36
                    &&& encode_utf8(e.metadata.key_id@).len() == 36
                    &&& e.ciphertext@ == aes_gcm_seal(key@, e.metadata.nonce@, data@)
                    &&& e.ciphertext@.len() == data@.len() + 16
                },
                Err(err) => err == EncryptionError::EncryptionFailed,
            },
    {
        if key.len() != 32 {
            return Err(EncryptionError::KeyGenerationFailed);
        }
        let nonce = match crypto::secure_random_bytes(12) {
            Some(v) => v,
            None => {
                return Err(EncryptionError::EncryptionFailed);
            },
        };
        let salt = match crypto::secure_random_bytes(32) {
            Some(v) => v,
            None => {
                return Err(EncryptionError::EncryptionFailed);
            },
        };
        let ciphertext = match aes256_gcm_encrypt(key, nonce.as_slice(), data) {
            Ok(c) => c,
            Err(_) => {
                return Err(EncryptionError::EncryptionFailed);
            },
        };
        Ok(EncryptedData {
            ciphertext,
            metadata: EncryptionMetadata { nonce, salt, key_id: new_key_id() },
        })
    }

    /// Decrypts under a 32-byte key. Fails closed: a wrong key
    /// length, a malformed nonce, or any ciphertext not sealed under
    /// this key and nonce is rejected — and what decrypts is the one
    /// plaintext that seals to the stored ciphertext.
    pub fn decrypt(&self, encrypted_data: &EncryptedData, key: &[u8]) -> (r: Result<
        Vec<u8>,
        EncryptionError,
    >)
        ensures
            (key@.len() != 32 || encrypted_data.metadata.nonce@.len() != 12) ==> r == Err::<
                Vec<u8>,
                EncryptionError,
            >(EncryptionError::DecryptionFailed),
            key@.len() == 32 && encrypted_data.metadata.nonce@.len() == 12 ==> match r {
                Ok(p) => encrypted_data.ciphertext@ == aes_gcm_seal(
                    key@,
                    encrypted_data.metadata.nonce@,
                    p@,
                ) && (forall|q: Seq<u8>|
                    encrypted_data.ciphertext@ == aes_gcm_seal(
                        key@,
                        encrypted_data.metadata.nonce@,
                        q,
                    ) ==> q == p@),
                Err(err) => err == EncryptionError::DecryptionFailed && (
                    encrypted_data.ciphertext@.len() > GCM_MAX_CIPHERTEXT_BYTES || forall|
                        q: Seq<u8>,
                    |
                        encrypted_data.ciphertext@ != aes_gcm_seal(
                            key@,
                            encrypted_data.metadata.nonce@,
                            q,
                        )),
            },
    {
        if key.len() != 32 {
            return Err(EncryptionError::DecryptionFailed);
        }
        if encrypted_data.metadata.nonce.len() != 12 {
            return Err(EncryptionError::DecryptionFailed);
        }
        match aes256_gcm_decrypt(
            key,
            encrypted_data.metadata.nonce.as_slice(),
            encrypted_data.ciphertext.as_slice(),
        ) {
            Ok(p) => Ok(p),
            Err(_) => Err(EncryptionError::DecryptionFailed),
        }
    }

    /// Encrypts a message for storage: encrypt, frame, base64.
    pub fn encrypt_message(&self, content: &str, conversation_key: &[u8]) -> (r: Result<
        String,
        EncryptionError,
    >)
        ensures
            conversation_key@.len() != 32 ==> r == Err::<String, EncryptionError>(
                EncryptionError::KeyGenerationFailed,
            ),
            r matches Ok(s) ==> is_sealed_message(s@, conversation_key@, content@),
    {
        let encrypted = match self.encrypt(content.as_bytes(), conversation_key) {
            Ok(e) => e,
            Err(err) => {
                return Err(err);
            },
        };
        let frame = build_frame(&encrypted);
        let out = crypto::base64_encode(frame.as_slice());
        proof {
            lemma_sealed_message_intro(
                out@,
                conversation_key@,
                content@,
                encrypted.metadata.nonce@,
                encrypted.metadata.salt@,
                encode_utf8(encrypted.metadata.key_id@),
            );
        }
        Ok(out)
    }

    /// Decrypts a stored message. Whatever it returns, the input was
    /// the base64 of a well-formed frame whose ciphertext is sealed
    /// under this key, and the returned text is the only message the
    /// input can be a sealing of — forged or tampered content is
    /// rejected, and a round trip gives back what was encrypted.
    pub fn decrypt_message(&self, encrypted_content: &str, conversation_key: &[u8]) -> (r: Result<
        String,
        EncryptionError,
    >)
        ensures
            r matches Ok(m) ==> is_sealed_message(encrypted_content@, conversation_key@, m@),
            r matches Ok(m) ==> forall|m2: Seq<char>|
                is_sealed_message(encrypted_content@, conversation_key@, m2) ==> m2 == m@,
    {
        let decoded = match crypto::base64_decode(encrypted_content) {
            Ok(d) => d,
            Err(_) => {
                return Err(EncryptionError::InvalidMetadata);
            },
        };
        let parsed = match parse_frame(decoded.as_slice()) {
            Some(e) => e,
            None => {
                return Err(EncryptionError::InvalidMetadata);
            },
        };
        let plain = match self.decrypt(&parsed, conversation_key) {
            Ok(p) => p,
            Err(err) => {
                return Err(err);
            },
        };
        let ghost plain_view = plain@;
        match bytes_to_string(plain) {
            Ok(m) => {
                proof {
                    lemma_sealed_message_intro(
                        encrypted_content@,
                        conversation_key@,
                        m@,
                        parsed.metadata.nonce@,
                        parsed.metadata.salt@,
                        encode_utf8(parsed.metadata.key_id@),
                    );
                    assert forall|m2: Seq<char>|
                        is_sealed_message(encrypted_content@, conversation_key@, m2)
                        implies m2 == m@ by {
                        let (n2, sa2, kid2) = choose|n2: Seq<u8>, sa2: Seq<u8>, kid2: Seq<u8>|
                            n2.len() == 12 && sa2.len() == 32 && kid2.len() <= 255
                                && encrypted_content@ == #[trigger] base64_of(
                                spec_frame(
                                    n2,
                                    sa2,
                                    kid2,
                                    aes_gcm_seal(conversation_key@, n2, encode_utf8(m2)),
                                ),
                            );
                        let ct2 = aes_gcm_seal(conversation_key@, n2, encode_utf8(m2));
                        // base64 decoding is injective, so both frames are `decoded`
                        assert(spec_frame(n2, sa2, kid2, ct2) == decoded@);
                        lemma_frame_injective(
                            parsed.metadata.nonce@,
                            parsed.metadata.salt@,
                            encode_utf8(parsed.metadata.key_id@),
                            parsed.ciphertext@,
                            n2,
                            sa2,
                            kid2,
                            ct2,
                        );
                        // one plaintext seals to this ciphertext, and it
                        // decodes to the returned text
                        assert(encode_utf8(m2) == plain_view);
                        vstd::utf8::encode_utf8_decode_utf8(m2);
                        vstd::utf8::encode_utf8_decode_utf8(m@);
                    }
                }
                Ok(m)
            },
            Err(_) => Err(EncryptionError::DecryptionFailed),
        }
    }

    /// The base64 digest under which a conversation key is stored.
    pub fn hash_conversation_key(&self, key: &[u8]) -> (r: String)
        ensures
            r@ == base64_of(sha256_of(key@)),
    {
        let digest = sha256_digest(key);
        crypto::base64_encode(digest.as_slice())
    }
}

} // verus!

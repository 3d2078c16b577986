use vstd::prelude::*;

use aes_gcm::aead::Aead;
use aes_gcm::{AeadCore, Aes256Gcm, KeyInit};
use chacha20poly1305::XChaCha20Poly1305;

use crate::errors::IrisError;
use crate::message::CipherType;

verus! {

/// What AES-256-GCM makes of a plaintext under a key and a nonce (`None`: refused).
pub uninterp spec fn aes256gcm_seal(key: Seq<u8>, nonce: Seq<u8>, plaintext: Seq<u8>) -> Option<Seq<u8>>;

/// What AES-256-GCM opens from a ciphertext under a key and a nonce (`None`: the tag does not
/// verify).
pub uninterp spec fn aes256gcm_open(key: Seq<u8>, nonce: Seq<u8>, ciphertext: Seq<u8>) -> Option<Seq<u8>>;

/// What XChaCha20-Poly1305 makes of a plaintext under a key and a nonce (`None`: refused).
pub uninterp spec fn xchacha_seal(key: Seq<u8>, nonce: Seq<u8>, plaintext: Seq<u8>) -> Option<Seq<u8>>;

/// What XChaCha20-Poly1305 opens from a ciphertext under a key and a nonce (`None`: the tag
/// does not verify).
pub uninterp spec fn xchacha_open(key: Seq<u8>, nonce: Seq<u8>, ciphertext: Seq<u8>) -> Option<Seq<u8>>;

pub open spec fn bytes_of(r: Option<Vec<u8>>) -> Option<Seq<u8>> {
    match r {
        Some(v) => Some(v@),
        None => None,
    }
}

/// Relies on aes-gcm's `Aead::encrypt` for `Aes256Gcm`: the result depends on key, nonce and
/// plaintext alone, is the plaintext's length plus the 16-byte tag, and decrypting it under
/// the same key and nonce gives the plaintext back; with no associated data it fails exactly for
/// a plaintext longer than `P_MAX` (2^36 bytes).
#[verifier::external_body]
fn aes_seal(key: &[u8], nonce: &[u8], plaintext: &[u8]) -> (r: Option<Vec<u8>>)
    requires
        key@.len() == 32,
        nonce@.len() == 12,
    ensures
        bytes_of(r) == aes256gcm_seal(key@, nonce@, plaintext@),
        r is Some <==> plaintext@.len() <= 0x10_0000_0000,
        r matches Some(c) ==> c@.len() == plaintext@.len() + 16,
        r matches Some(c) ==> aes256gcm_open(key@, nonce@, c@) == Some(plaintext@),
{
    let cipher = Aes256Gcm::new(aes_gcm::Key::<Aes256Gcm>::from_slice(key));
    cipher.encrypt(aes_gcm::Nonce::from_slice(nonce), plaintext).ok()
}

/// Relies on aes-gcm's `Aead::decrypt` for `Aes256Gcm`: the result depends on key, nonce and
/// ciphertext alone; a ciphertext shorter than the 16-byte tag is refused, a plaintext is the
/// ciphertext without its tag, and only what encrypting that plaintext under the same key and
/// nonce gives is accepted (the tag is checked over the ciphertext, and encryption computes the
/// same keystream and tag).
#[verifier::external_body]
fn aes_open(key: &[u8], nonce: &[u8], ciphertext: &[u8]) -> (r: Option<Vec<u8>>)
    requires
        key@.len() == 32,
        nonce@.len() == 12,
    ensures
        bytes_of(r) == aes256gcm_open(key@, nonce@, ciphertext@),
        ciphertext@.len() < 16 ==> r is None,
        r matches Some(p) ==> p@.len() + 16 == ciphertext@.len(),
        r matches Some(p) ==> (p@.len() <= 0x10_0000_0000 ==> aes256gcm_seal(key@, nonce@, p@)
            == Some(ciphertext@)),
{
    let cipher = Aes256Gcm::new(aes_gcm::Key::<Aes256Gcm>::from_slice(key));
    cipher.decrypt(aes_gcm::Nonce::from_slice(nonce), ciphertext).ok()
}

/// Relies on chacha20poly1305's `Aead::encrypt` for `XChaCha20Poly1305`: the result depends
/// on key, nonce and plaintext alone, is the plaintext's length plus the 16-byte tag, and
/// decrypting it under the same key and nonce gives the plaintext back; it fails exactly for a
/// plaintext of `u32::MAX` or more 64-byte blocks.
#[verifier::external_body]
fn xchacha_seal_bytes(key: &[u8], nonce: &[u8], plaintext: &[u8]) -> (r: Option<Vec<u8>>)
    requires
        key@.len() == 32,
        nonce@.len() == 24,
    ensures
        bytes_of(r) == xchacha_seal(key@, nonce@, plaintext@),
        r is Some <==> plaintext@.len() / 64 < 0xffff_ffff,
        r matches Some(c) ==> c@.len() == plaintext@.len() + 16,
        r matches Some(c) ==> xchacha_open(key@, nonce@, c@) == Some(plaintext@),
{
    let cipher = XChaCha20Poly1305::new(chacha20poly1305::Key::from_slice(key));
    cipher.encrypt(chacha20poly1305::XNonce::from_slice(nonce), plaintext).ok()
}

/// Relies on chacha20poly1305's `Aead::decrypt` for `XChaCha20Poly1305`: the result depends
/// on key, nonce and ciphertext alone; a ciphertext shorter than the 16-byte tag is refused, a
/// plaintext is the ciphertext without its tag, and only what encrypting that plaintext under
/// the same key and nonce gives is accepted (the tag is checked over the ciphertext, and
/// encryption computes the same keystream and tag, with the same length limit).
#[verifier::external_body]
fn xchacha_open_bytes(key: &[u8], nonce: &[u8], ciphertext: &[u8]) -> (r: Option<Vec<u8>>)
    requires
        key@.len() == 32,
        nonce@.len() == 24,
    ensures
        bytes_of(r) == xchacha_open(key@, nonce@, ciphertext@),
        ciphertext@.len() < 16 ==> r is None,
        r matches Some(p) ==> p@.len() + 16 == ciphertext@.len(),
        r matches Some(p) ==> xchacha_seal(key@, nonce@, p@) == Some(ciphertext@),
{
    let cipher = XChaCha20Poly1305::new(chacha20poly1305::Key::from_slice(key));
    cipher.decrypt(chacha20poly1305::XNonce::from_slice(nonce), ciphertext).ok()
}

/// Relies on aes-gcm's `AeadCore::generate_nonce` with rand's `OsRng`: a fresh random
/// 96-bit nonce.
#[verifier::external_body]
fn aes_random_nonce() -> (r: Vec<u8>)
    ensures
        r@.len() == 12,
{
    Aes256Gcm::generate_nonce(&mut rand::rngs::OsRng).to_vec()
}

/// Relies on chacha20poly1305's `AeadCore::generate_nonce` with the system RNG: a fresh
/// random 192-bit nonce.
#[verifier::external_body]
fn xchacha_random_nonce() -> (r: Vec<u8>)
    ensures
        r@.len() == 24,
{
    XChaCha20Poly1305::generate_nonce(&mut chacha20poly1305::aead::OsRng).to_vec()
}

/// Relies on aes-gcm's `KeyInit::generate_key` with rand's `OsRng`: a fresh random
/// 256-bit key.
#[verifier::external_body]
fn aes_random_key() -> (r: Vec<u8>)
    ensures
        r@.len() == 32,
{
    Aes256Gcm::generate_key(&mut rand::rngs::OsRng).to_vec()
}

/// Relies on chacha20poly1305's `KeyInit::generate_key` with the system RNG: a fresh random
/// 256-bit key.
#[verifier::external_body]
fn xchacha_random_key() -> (r: Vec<u8>)
    ensures
        r@.len() == 32,
{
    XChaCha20Poly1305::generate_key(&mut chacha20poly1305::aead::OsRng).to_vec()
}

/// Bytes of nonce in front of every ciphertext.
pub open spec fn nonce_len(t: CipherType) -> nat {
    match t {
        CipherType::Aes256Gcm => 12,
        CipherType::XChaCha20Poly1305 => 24,
    }
}

/// Whether a plaintext of `len` bytes is within what the cipher can seal.
pub open spec fn seal_fits(t: CipherType, len: nat) -> bool {
    match t {
        CipherType::Aes256Gcm => len <= 0x10_0000_0000,
        CipherType::XChaCha20Poly1305 => len / 64 < 0xffff_ffff,
    }
}

pub open spec fn seal(t: CipherType, key: Seq<u8>, nonce: Seq<u8>, plaintext: Seq<u8>) -> Option<Seq<u8>> {
    match t {
        CipherType::Aes256Gcm => aes256gcm_seal(key, nonce, plaintext),
        CipherType::XChaCha20Poly1305 => xchacha_seal(key, nonce, plaintext),
    }
}

pub open spec fn open(t: CipherType, key: Seq<u8>, nonce: Seq<u8>, ciphertext: Seq<u8>) -> Option<Seq<u8>> {
    match t {
        CipherType::Aes256Gcm => aes256gcm_open(key, nonce, ciphertext),
        CipherType::XChaCha20Poly1305 => xchacha_open(key, nonce, ciphertext),
    }
}

/// An authenticated cipher with its 32-byte key.
pub struct Cipher {
    pub cipher_type: CipherType,
    pub key: Vec<u8>,
}

/// Makes the cipher of the given kind for `key`, which must be 32 bytes long.
pub fn get_cipher(cipher_type: CipherType, key: &[u8]) -> (r: Result<Cipher, IrisError>)
    ensures
        key@.len() == 32 <==> r is Ok,
        r matches Ok(c) ==> c.cipher_type == cipher_type && c.key@ == key@,
        r is Err ==> r == Err::<Cipher, IrisError>(IrisError::CryptoInitError),
{
    if key.len() != 32 {
        return Err(IrisError::CryptoInitError);
    }
    let mut owned: Vec<u8> = Vec::new();
    crate::json::push_all(&mut owned, key);
    assert(owned@ =~= key@);
    Ok(Cipher { cipher_type, key: owned })
}

impl Cipher {
    pub open spec fn wf(&self) -> bool {
        self.key@.len() == 32
    }

    /// The plaintext that a `nonce || ciphertext` frame opens to under this cipher.
    pub open spec fn opened(&self, frame: Seq<u8>) -> Option<Seq<u8>> {
        let n = nonce_len(self.cipher_type) as int;
        if frame.len() < n {
            None
        } else {
            open(self.cipher_type, self.key@, frame.subrange(0, n), frame.subrange(n, frame.len() as int))
        }
    }

    /// A fresh random key of the cipher's size.
    pub fn generate_key(&self) -> (r: Vec<u8>)
        ensures
            r@.len() == 32,
    {
        match self.cipher_type {
            CipherType::Aes256Gcm => aes_random_key(),
            CipherType::XChaCha20Poly1305 => xchacha_random_key(),
        }
    }

    /// Seals `message` under a fresh random nonce and returns `nonce || ciphertext`, which
    /// opens back to `message`.
    pub fn encrypt(&self, message: &[u8]) -> (r: Result<Vec<u8>, IrisError>)
        requires
            self.wf(),
        ensures
            r matches Ok(f) ==> {
                let n = nonce_len(self.cipher_type) as int;
                &&& f@.len() == n + message@.len() + 16
                &&& seal(self.cipher_type, self.key@, f@.subrange(0, n), message@) == Some(
                    f@.subrange(n, f@.len() as int),
                )
                &&& self.opened(f@) == Some(message@)
            },
            r is Err ==> r == Err::<Vec<u8>, IrisError>(IrisError::CryptoEncryptionError),
            seal_fits(self.cipher_type, message@.len()) <==> r is Ok,
    {
        let nonce = match self.cipher_type {
            CipherType::Aes256Gcm => aes_random_nonce(),
            CipherType::XChaCha20Poly1305 => xchacha_random_nonce(),
        };
        let sealed = match self.cipher_type {
            CipherType::Aes256Gcm => aes_seal(self.key.as_slice(), nonce.as_slice(), message),
            CipherType::XChaCha20Poly1305 => xchacha_seal_bytes(
                self.key.as_slice(),
                nonce.as_slice(),
                message,
            ),
        };
        match sealed {
            Some(ciphertext) => {
                let mut out = nonce;
                let ghost n = out@;
                crate::json::push_all(&mut out, ciphertext.as_slice());
                assert(out@.subrange(0, n.len() as int) =~= n);
                assert(out@.subrange(n.len() as int, out@.len() as int) =~= ciphertext@);
                Ok(out)
            },
            None => Err(IrisError::CryptoEncryptionError),
        }
    }

    /// Splits off the nonce and opens the rest; any failure is `CryptoDecryptionError`.
    pub fn decrypt(&self, message: &[u8]) -> (r: Result<Vec<u8>, IrisError>)
        requires
            self.wf(),
        ensures
            match self.opened(message@) {
                Some(p) => r matches Ok(q) && q@ == p,
                None => r == Err::<Vec<u8>, IrisError>(IrisError::CryptoDecryptionError),
            },
            message@.len() < nonce_len(self.cipher_type) + 16 ==> r == Err::<Vec<u8>, IrisError>(
                IrisError::CryptoDecryptionError,
            ),
            r matches Ok(q) ==> q@.len() + nonce_len(self.cipher_type) + 16 == message@.len(),
            // Only a frame that sealing the plaintext would give is accepted.
            r matches Ok(q) ==> (seal_fits(self.cipher_type, q@.len()) ==> seal(
                self.cipher_type,
                self.key@,
                message@.subrange(0, nonce_len(self.cipher_type) as int),
                q@,
            ) == Some(message@.subrange(nonce_len(self.cipher_type) as int, message@.len() as int))),
    {
        let n: usize = match self.cipher_type {
            CipherType::Aes256Gcm => 12,
            CipherType::XChaCha20Poly1305 => 24,
        };
        if message.len() < n {
            return Err(IrisError::CryptoDecryptionError);
        }
        let nonce = &message[0..n];
        let ciphertext = &message[n..message.len()];
        let opened = match self.cipher_type {
            CipherType::Aes256Gcm => aes_open(self.key.as_slice(), nonce, ciphertext),
            CipherType::XChaCha20Poly1305 => xchacha_open_bytes(
                self.key.as_slice(),
                nonce,
                ciphertext,
            ),
        };
        match opened {
            Some(p) => Ok(p),
            None => Err(IrisError::CryptoDecryptionError),
        }
    }
}

} // verus!

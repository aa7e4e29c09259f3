//! The credential vault: secrets at rest are AES-256-GCM-SIV ciphertext
//! (hex-encoded) under a key derived from the host identity, with graceful
//! migration from legacy plaintext.
//!
//! The key is the BLAKE2s-256 digest of the host identity string and never
//! leaves memory.  Every encryption uses the same all-zero nonce: the
//! reference behaviour of this system, kept for compatibility although nonce
//! reuse under one key is a known weakness.

use vstd::prelude::*;
use vstd::string::*;
use vstd::utf8::{decode_utf8, encode_utf8, valid_utf8};

use crate::codec::{
    aead_decrypt, aead_encrypt, aead_open, aead_seal, blake2s256, blake2s_of, hex_decode,
    hex_encode, hex_seq, hex_val, host_uid, lemma_ascii_char_byte, lemma_unhex_hex, lossy_of,
    unhex_seq, utf8_bytes, utf8_lossy,
};
use crate::error::WltError;

verus! {

/// The largest plaintext (in UTF-8 bytes) the cipher accepts.
pub const MAX_PLAIN_BYTES: u64 = 0x10_0000_0000;

/// Holder of the host-derived 256-bit key.
pub struct Vault {
    key: Vec<u8>,
}

/// Hex ciphertext of `p` under `key` and the fixed all-zero nonce.
pub open spec fn encrypt_spec(key: Seq<u8>, p: Seq<char>) -> Seq<char> {
    hex_seq(aead_seal(key, encode_utf8(p)))
}

/// Plaintext recovered from hex ciphertext `c` under `key`, or `None` when
/// `c` is not hex or the authentication tag does not verify.  This failure is
/// the signal that a stored value is still legacy plaintext.
pub open spec fn decrypt_spec(key: Seq<u8>, c: Seq<char>) -> Option<Seq<char>> {
    match unhex_seq(encode_utf8(c)) {
        None => None,
        Some(bytes) => match aead_open(key, bytes) {
            None => None,
            Some(pb) => Some(
                if valid_utf8(pb) {
                    decode_utf8(pb)
                } else {
                    lossy_of(pb)
                },
            ),
        },
    }
}

/// A stored value as the next save should write it: re-encrypted when it is
/// non-empty legacy plaintext, unchanged when it is already ciphertext or
/// empty.
pub open spec fn upgrade_spec(key: Seq<u8>, v: Seq<char>) -> Seq<char> {
    if decrypt_spec(key, v) is None && v.len() > 0 {
        encrypt_spec(key, v)
    } else {
        v
    }
}

impl Vault {
    /// The derived key (32 bytes once constructed).
    pub closed spec fn key_bytes(&self) -> Seq<u8> {
        self.key@
    }

    /// The key has the size the cipher requires.
    pub open spec fn wf(&self) -> bool {
        self.key_bytes().len() == 32
    }

    /// Derive the key from a host identity string.
    pub fn from_host_id(uid: &str) -> (v: Vault)
        ensures
            v.wf(),
            v.key_bytes() == blake2s_of(encode_utf8(uid@)),
    {
        let bytes = utf8_bytes(uid);
        let key = blake2s256(&bytes);
        Vault { key }
    }

    /// Derive the key from this machine's identity, if the platform exposes
    /// one.
    pub fn from_host() -> (r: Option<Vault>)
        ensures
            r is Some ==> r->0.wf(),
    {
        match host_uid() {
            Some(uid) => Some(Vault::from_host_id(uid.as_str())),
            None => None,
        }
    }
}

/// Encrypt a secret for storage: hex of the ciphertext-plus-tag.  Succeeds
/// for every plaintext within the cipher's length bound, and what it returns
/// decrypts back to the plaintext under the same key.
pub fn str_encrypt(vault: &Vault, plaintext: &str) -> (r: Result<String, WltError>)
    requires
        vault.wf(),
    ensures
        match r {
            Ok(c) => encode_utf8(plaintext@).len() <= MAX_PLAIN_BYTES && c@ == encrypt_spec(
                vault.key_bytes(),
                plaintext@,
            ) && decrypt_spec(vault.key_bytes(), c@) == Some(plaintext@),
            Err(e) => e is Crypto && encode_utf8(plaintext@).len() > MAX_PLAIN_BYTES,
        },
{
    broadcast use vstd::utf8::encode_utf8_valid_utf8, vstd::utf8::encode_utf8_decode_utf8;

    let pb = utf8_bytes(plaintext);
    if (pb.len() as u64) > MAX_PLAIN_BYTES {
        return Err(WltError::Crypto);
    }
    let ct = aead_encrypt(&vault.key, &pb);
    let hex = hex_encode(&ct);
    proof {
        lemma_unhex_hex(ct@);
    }
    Ok(hex)
}

/// Decrypt a stored secret.  Fails (with a crypto error, never a panic) when
/// the value is not hex ciphertext under this key — the migration signal.
pub fn str_decrypt(vault: &Vault, ciphertext: &str) -> (r: Result<String, WltError>)
    requires
        vault.wf(),
    ensures
        match r {
            Ok(p) => decrypt_spec(vault.key_bytes(), ciphertext@) == Some(p@),
            Err(e) => e is Crypto && decrypt_spec(vault.key_bytes(), ciphertext@) is None,
        },
{
    let ct = match hex_decode(ciphertext) {
        Some(ct) => ct,
        None => {
            return Err(WltError::Crypto);
        },
    };
    let pb = match aead_decrypt(&vault.key, &ct) {
        Some(pb) => pb,
        None => {
            return Err(WltError::Crypto);
        },
    };
    Ok(utf8_lossy(&pb))
}

/// A stored value, upgraded for the next save: non-empty values that do not
/// decrypt are legacy plaintext and come back encrypted; everything else
/// comes back unchanged.  The result is a fixed point: upgrading it again
/// changes nothing.
pub fn upgrade_if_plain(vault: &Vault, value: &str) -> (r: Result<String, WltError>)
    requires
        vault.wf(),
    ensures
        match r {
            Ok(s) => s@ == upgrade_spec(vault.key_bytes(), value@) && upgrade_spec(
                vault.key_bytes(),
                s@,
            ) == s@,
            Err(e) => e is Crypto && decrypt_spec(vault.key_bytes(), value@) is None
                && encode_utf8(value@).len() > MAX_PLAIN_BYTES,
        },
{
    if !value.is_empty() && str_decrypt(vault, value).is_err() {
        match str_encrypt(vault, value) {
            Ok(c) => Ok(c),
            Err(e) => Err(e),
        }
    } else {
        Ok(String::from_str(value))
    }
}

/// Law: a legacy plaintext value such as `plain_text` decrypts under no key
/// at all — its first character is not a hex digit — so migration treats it
/// as plaintext on every host.
pub proof fn lemma_legacy_value_never_decrypts(key: Seq<u8>)
    ensures
        decrypt_spec(key, "plain_text"@) is None,
{
    broadcast use vstd::utf8::is_ascii_chars_encode_utf8;

    reveal_strlit("plain_text");
    let c = "plain_text"@;
    assert(vstd::utf8::is_ascii_chars(c));
    let bs = encode_utf8(c);
    assert(bs[0] == 'p' as u8);
    lemma_ascii_char_byte('p');
    assert(hex_val(bs[0]) is None);
    assert(unhex_seq(bs) is None);
}

/// `text` with `substr` replaced by its encryption, when `substr` is a
/// non-empty value that does not decrypt under this key (i.e. is still
/// legacy plaintext); `text` unchanged otherwise.  This is how whole
/// configuration files are migrated without a manual step.
pub fn substr_encrypt(vault: &Vault, text: &str, substr: &str) -> (r: Result<String, WltError>)
    requires
        vault.wf(),
    ensures
        match r {
            Ok(s) => {
                if decrypt_spec(vault.key_bytes(), substr@) is None && substr@.len() > 0 {
                    s@ == crate::text::replace_seq(
                        text@,
                        substr@,
                        encrypt_spec(vault.key_bytes(), substr@),
                    )
                } else {
                    s@ == text@
                }
            },
            Err(e) => e is Crypto && decrypt_spec(vault.key_bytes(), substr@) is None
                && encode_utf8(substr@).len() > MAX_PLAIN_BYTES,
        },
{
    if !substr.is_empty() && str_decrypt(vault, substr).is_err() {
        let enc = match str_encrypt(vault, substr) {
            Ok(c) => c,
            Err(e) => {
                return Err(e);
            },
        };
        Ok(crate::text::replace_all(text, substr, enc.as_str()))
    } else {
        Ok(String::from_str(text))
    }
}

} // verus!

//! Byte/text codecs at the library boundary.
//!
//! Percent-encoding and hex coding have exact specifications here, and the
//! trusted wrappers around the `urlencoding` and `hex` crates promise exactly
//! those.  The legacy Chinese page charset, the hash and the AEAD cipher are
//! named by uninterpreted functions: their outputs depend on the arguments
//! alone, but writing them out would mean transcribing whole algorithms.

use vstd::prelude::*;
use vstd::string::*;
use vstd::utf8::encode_utf8;

use aes_gcm_siv::aead::{Aead, KeyInit};
use aes_gcm_siv::{Aes256GcmSiv, Nonce};
use blake2::{Blake2s256, Digest};

verus! {

/// Bytes that percent-encoding passes through unchanged: ASCII alphanumerics
/// and `-`, `.`, `_`, `~`.
pub open spec fn is_url_safe(b: u8) -> bool {
    ||| 48 <= b <= 57
    ||| 65 <= b <= 90
    ||| 97 <= b <= 122
    ||| b == 45
    ||| b == 46
    ||| b == 95
    ||| b == 126
}

/// Character for the upper-case hex digit `d` (only values below 16 matter).
pub open spec fn hex_upper_char(d: u8) -> char {
    if d == 0 {
        '0'
    } else if d == 1 {
        '1'
    } else if d == 2 {
        '2'
    } else if d == 3 {
        '3'
    } else if d == 4 {
        '4'
    } else if d == 5 {
        '5'
    } else if d == 6 {
        '6'
    } else if d == 7 {
        '7'
    } else if d == 8 {
        '8'
    } else if d == 9 {
        '9'
    } else if d == 10 {
        'A'
    } else if d == 11 {
        'B'
    } else if d == 12 {
        'C'
    } else if d == 13 {
        'D'
    } else if d == 14 {
        'E'
    } else {
        'F'
    }
}

/// Character for the lower-case hex digit `d` (only values below 16 matter).
pub open spec fn hex_lower_char(d: u8) -> char {
    if d == 0 {
        '0'
    } else if d == 1 {
        '1'
    } else if d == 2 {
        '2'
    } else if d == 3 {
        '3'
    } else if d == 4 {
        '4'
    } else if d == 5 {
        '5'
    } else if d == 6 {
        '6'
    } else if d == 7 {
        '7'
    } else if d == 8 {
        '8'
    } else if d == 9 {
        '9'
    } else if d == 10 {
        'a'
    } else if d == 11 {
        'b'
    } else if d == 12 {
        'c'
    } else if d == 13 {
        'd'
    } else if d == 14 {
        'e'
    } else {
        'f'
    }
}

/// Percent-encoding of a byte sequence: safe bytes pass through, every other
/// byte becomes `%` followed by two upper-case hex digits.
pub open spec fn urlenc_seq(bs: Seq<u8>) -> Seq<char>
    decreases bs.len(),
{
    if bs.len() == 0 {
        Seq::empty()
    } else {
        let b = bs[0];
        (if is_url_safe(b) {
            seq![b as char]
        } else {
            seq!['%', hex_upper_char(b / 16), hex_upper_char(b % 16)]
        }) + urlenc_seq(bs.drop_first())
    }
}

/// Percent-encoded text never contains `=` or `;` or a space: those bytes are
/// not in the safe set, and escapes consist of `%` and upper-case hex digits.
pub proof fn lemma_urlenc_no_separator(bs: Seq<u8>)
    ensures
        forall|k: int|
            0 <= k < urlenc_seq(bs).len() ==> #[trigger] urlenc_seq(bs)[k] != '='
                && urlenc_seq(bs)[k] != ';' && urlenc_seq(bs)[k] != ' ',
    decreases bs.len(),
{
    if bs.len() > 0 {
        let b = bs[0];
        let head = if is_url_safe(b) {
            seq![b as char]
        } else {
            seq!['%', hex_upper_char(b / 16), hex_upper_char(b % 16)]
        };
        let tail = urlenc_seq(bs.drop_first());
        lemma_urlenc_no_separator(bs.drop_first());
        assert forall|k: int| 0 <= k < urlenc_seq(bs).len() implies #[trigger] urlenc_seq(bs)[k]
            != '=' && urlenc_seq(bs)[k] != ';' && urlenc_seq(bs)[k] != ' ' by {
            assert(urlenc_seq(bs) == head + tail);
            if k < head.len() {
                assert(urlenc_seq(bs)[k] == head[k]);
                if is_url_safe(b) {
                    assert((b as char) as u32 == b as u32);
                }
            } else {
                assert(urlenc_seq(bs)[k] == tail[k - head.len()]);
            }
        }
    }
}

/// Lower-case hex encoding: two digits for every byte, in order.
pub open spec fn hex_seq(bs: Seq<u8>) -> Seq<char>
    decreases bs.len(),
{
    if bs.len() == 0 {
        Seq::empty()
    } else {
        seq![hex_lower_char(bs[0] / 16), hex_lower_char(bs[0] % 16)] + hex_seq(bs.drop_first())
    }
}

/// Value of an ASCII hex digit byte (either case), or `None`.
pub open spec fn hex_val(b: u8) -> Option<u8> {
    if 48 <= b <= 57 {
        Some((b - 48) as u8)
    } else if 65 <= b <= 70 {
        Some((b - 55) as u8)
    } else if 97 <= b <= 102 {
        Some((b - 87) as u8)
    } else {
        None
    }
}

/// Hex decoding of a byte sequence: `None` on odd length or any byte that is
/// not an ASCII hex digit, otherwise the decoded bytes.
pub open spec fn unhex_seq(bs: Seq<u8>) -> Option<Seq<u8>>
    decreases bs.len(),
{
    if bs.len() == 0 {
        Some(Seq::empty())
    } else if bs.len() == 1 {
        None
    } else {
        match (hex_val(bs[0]), hex_val(bs[1])) {
            (Some(h), Some(l)) => match unhex_seq(bs.subrange(2, bs.len() as int)) {
                Some(rest) => Some(seq![(h * 16 + l) as u8] + rest),
                None => None,
            },
            _ => None,
        }
    }
}

/// Hex encoding produces ASCII text.
pub proof fn lemma_hex_seq_ascii(bs: Seq<u8>)
    ensures
        vstd::utf8::is_ascii_chars(hex_seq(bs)),
        hex_seq(bs).len() == 2 * bs.len(),
    decreases bs.len(),
{
    if bs.len() > 0 {
        lemma_hex_seq_ascii(bs.drop_first());
    }
}

/// For an ASCII character, the `u8` cast gives its code point.
pub proof fn lemma_ascii_char_byte(c: char)
    requires
        c <= '\u{7f}',
    ensures
        c as u8 == c as u32,
{
    let s = seq![c];
    let u = c as u32;
    assert(vstd::utf8::is_ascii_chars(s));
    vstd::utf8::is_ascii_chars_encode_utf8(s);
    assert(s.drop_first() =~= Seq::<char>::empty());
    assert(vstd::utf8::has_width_1_encoding(u));
    assert(encode_utf8(s) =~= seq![vstd::utf8::leading_byte_width_1(u)]);
    assert(c as u8 == vstd::utf8::leading_byte_width_1(u));
    assert(u & 0x7F == u) by (bit_vector)
        requires
            u <= 127,
    ;
}

/// A lower-case hex digit character decodes (as a byte) back to its value.
pub proof fn lemma_hex_char_val(d: u8)
    requires
        d < 16,
    ensures
        hex_val(hex_lower_char(d) as u8) == Some(d),
{
    lemma_ascii_char_byte(hex_lower_char(d));
}

/// Decoding inverts encoding: `unhex_seq` of the UTF-8 bytes of `hex_seq(bs)`
/// gives back `bs`.
pub proof fn lemma_unhex_hex(bs: Seq<u8>)
    ensures
        unhex_seq(encode_utf8(hex_seq(bs))) == Some(bs),
    decreases bs.len(),
{
    broadcast use vstd::utf8::is_ascii_chars_encode_utf8;

    lemma_hex_seq_ascii(bs);
    let cs = hex_seq(bs);
    let enc = encode_utf8(cs);
    if bs.len() == 0 {
        assert(cs =~= Seq::empty());
        assert(enc =~= Seq::<u8>::empty());
        assert(bs =~= Seq::<u8>::empty());
    } else {
        let b = bs[0];
        let rest = bs.drop_first();
        lemma_unhex_hex(rest);
        lemma_hex_seq_ascii(rest);
        // the first two encoded bytes are the codes of the two digit chars
        assert(enc.len() == cs.len());
        assert(enc[0] == cs[0] as u8 && enc[1] == cs[1] as u8);
        lemma_hex_char_val((b / 16) as u8);
        lemma_hex_char_val((b % 16) as u8);
        assert((b / 16) * 16 + (b % 16) == b) by (nonlinear_arith);
        // the tail of the encoding is the encoding of the tail
        assert(vstd::utf8::is_ascii_chars(cs.drop_first()));
        assert(enc.subrange(2, enc.len() as int) =~= encode_utf8(hex_seq(rest))) by {
            assert(cs.drop_first().drop_first() =~= hex_seq(rest));
            let tail = encode_utf8(hex_seq(rest));
            assert(tail.len() == hex_seq(rest).len());
            assert(forall|i: int|
                0 <= i < tail.len() ==> tail[i] == hex_seq(rest)[i] as u8 && enc[i + 2] == cs[i
                    + 2] as u8);
        }
        assert(unhex_seq(enc) == Some(seq![b] + rest));
        assert(seq![b] + rest =~= bs);
    }
}

// ---------------------------------------------------------------------------
// Named results of outside computations.  Each is a pure function of its
// arguments; the algorithms themselves live in the outside crates.
// ---------------------------------------------------------------------------
/// The GBK encoding of a character sequence, as `encoding_rs` computes it
/// (unmappable characters become numeric character references).
pub uninterp spec fn gbk_of(s: Seq<char>) -> Seq<u8>;

/// The text that `encoding_rs` decodes a GBK byte sequence to.
pub uninterp spec fn gbk_text_of(bs: Seq<u8>) -> Seq<char>;

/// The 32-byte BLAKE2s-256 digest of a byte sequence.
pub uninterp spec fn blake2s_of(bs: Seq<u8>) -> Seq<u8>;

/// AES-256-GCM-SIV ciphertext-plus-tag of `plain` under `key` and the fixed
/// all-zero nonce.
pub uninterp spec fn aead_seal(key: Seq<u8>, plain: Seq<u8>) -> Seq<u8>;

/// Result of AES-256-GCM-SIV decryption under `key` and the fixed all-zero
/// nonce: the plaintext, or `None` when the tag does not verify.
pub uninterp spec fn aead_open(key: Seq<u8>, cipher: Seq<u8>) -> Option<Seq<u8>>;

/// The text that lossy UTF-8 decoding yields for a byte sequence.
pub uninterp spec fn lossy_of(bs: Seq<u8>) -> Seq<char>;

// ---------------------------------------------------------------------------
// Trusted wrappers.
// ---------------------------------------------------------------------------
/// Relies on `urlencoding::encode`: percent-encodes every byte of the UTF-8
/// form of `s` except ASCII alphanumerics and `-`, `.`, `_`, `~`, with
/// upper-case hex escapes.
#[verifier::external_body]
pub fn url_encode(s: &str) -> (r: String)
    ensures
        r@ == urlenc_seq(encode_utf8(s@)),
{
    urlencoding::encode(s).into_owned()
}

/// Relies on `urlencoding::encode_binary`: the same percent-encoding applied
/// to raw bytes.
#[verifier::external_body]
pub fn url_encode_bytes(bs: &Vec<u8>) -> (r: String)
    ensures
        r@ == urlenc_seq(bs@),
{
    urlencoding::encode_binary(bs).into_owned()
}

/// Relies on `hex::encode`: two lower-case hex digits for every byte.
#[verifier::external_body]
pub fn hex_encode(bs: &Vec<u8>) -> (r: String)
    ensures
        r@ == hex_seq(bs@),
{
    hex::encode(bs)
}

/// Relies on `hex::decode`: accepts an even number of ASCII hex digits of
/// either case (it reads the UTF-8 bytes of `s`), rejects everything else.
#[verifier::external_body]
pub fn hex_decode(s: &str) -> (r: Option<Vec<u8>>)
    ensures
        match r {
            Some(v) => unhex_seq(encode_utf8(s@)) == Some(v@),
            None => unhex_seq(encode_utf8(s@)) is None,
        },
{
    hex::decode(s).ok()
}

/// Relies on `encoding_rs::GBK.encode`: a pure function of the input text.
#[verifier::external_body]
pub fn gbk_encode(s: &str) -> (r: Vec<u8>)
    ensures
        r@ == gbk_of(s@),
{
    encoding_rs::GBK.encode(s).0.into_owned()
}

/// Relies on `encoding_rs::GBK.decode`: a pure function of the input bytes.
#[verifier::external_body]
pub fn gbk_decode(bs: &Vec<u8>) -> (r: String)
    ensures
        r@ == gbk_text_of(bs@),
{
    encoding_rs::GBK.decode(bs).0.into_owned()
}

/// Relies on `blake2::Blake2s256` (via the `digest` traits): a 32-byte digest
/// that depends on the input bytes alone.
#[verifier::external_body]
pub fn blake2s256(bs: &Vec<u8>) -> (r: Vec<u8>)
    ensures
        r@ == blake2s_of(bs@),
        r@.len() == 32,
{
    let mut hasher = Blake2s256::new();
    hasher.update(bs.as_slice());
    hasher.finalize().to_vec()
}

/// Relies on `aes_gcm_siv::Aes256GcmSiv` (`KeyInit::new_from_slice`,
/// `Aead::encrypt`) with the all-zero nonce: deterministic for a given key
/// and plaintext, never fails for plaintexts within the AES-GCM-SIV length
/// bound, and decrypting its result under the same key and nonce returns the
/// plaintext.
#[verifier::external_body]
pub fn aead_encrypt(key: &Vec<u8>, plain: &Vec<u8>) -> (r: Vec<u8>)
    requires
        key@.len() == 32,
        plain@.len() <= 0x10_0000_0000,
    ensures
        r@ == aead_seal(key@, plain@),
        aead_open(key@, r@) == Some(plain@),
{
    let cipher = Aes256GcmSiv::new_from_slice(key).unwrap();
    let nonce = Nonce::from([0u8; 12]);
    cipher.encrypt(&nonce, plain.as_slice()).unwrap()
}

/// Relies on `aes_gcm_siv::Aes256GcmSiv` (`KeyInit::new_from_slice`,
/// `Aead::decrypt`) with the all-zero nonce: deterministic for a given key
/// and ciphertext; fails exactly when the authentication tag does not verify
/// (including inputs shorter than a tag or beyond the length bound).
#[verifier::external_body]
pub fn aead_decrypt(key: &Vec<u8>, cipher_text: &Vec<u8>) -> (r: Option<Vec<u8>>)
    requires
        key@.len() == 32,
    ensures
        match r {
            Some(p) => aead_open(key@, cipher_text@) == Some(p@),
            None => aead_open(key@, cipher_text@) is None,
        },
{
    let cipher = Aes256GcmSiv::new_from_slice(key).unwrap();
    let nonce = Nonce::from([0u8; 12]);
    cipher.decrypt(&nonce, cipher_text.as_slice()).ok()
}

/// Relies on `machine_uid::get`: the host identity string, if the platform
/// exposes one.  Nothing is promised of the value.
#[verifier::external_body]
pub fn host_uid() -> (r: Option<String>)
{
    machine_uid::get().ok()
}

/// Relies on `String::from_utf8_lossy`: a pure function of the bytes that is
/// the identity on the UTF-8 encoding of any text.
#[verifier::external_body]
pub fn utf8_lossy(bs: &Vec<u8>) -> (r: String)
    ensures
        r@ == lossy_of(bs@),
        vstd::utf8::valid_utf8(bs@) ==> r@ == vstd::utf8::decode_utf8(bs@),
{
    String::from_utf8_lossy(bs).into_owned()
}

/// Relies on `str::as_bytes` (specified by vstd) to produce an owned copy of
/// the UTF-8 bytes of `s`.
pub fn utf8_bytes(s: &str) -> (r: Vec<u8>)
    ensures
        r@ == encode_utf8(s@),
{
    s.as_bytes_vec()
}

} // verus!

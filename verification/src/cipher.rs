//! Keeping secrets: a text is sealed under a key and written as base64, and read back.

use crate::text::{concat2, owned};
use std::collections::hash_map::DefaultHasher;
use std::hash::Hasher;
use vstd::prelude::*;
use vstd::bytes::spec_u64_to_le_bytes;
use vstd::std_specs::hash::DefaultHasherAdditionalSpecFns;
use vstd::utf8::{decode_utf8, encode_utf8, valid_utf8};

verus! {

/// How many bytes a key has.
pub const KEY_BYTES: usize = 32;

/// How many bytes a nonce has.
pub const NONCE_BYTES: usize = 12;

/// A length up to which a text can be sealed, in bytes.
pub const SEALABLE_BYTES: u64 = 68_000_000_000;

/// What AES-256-GCM, as the `aes-gcm` crate decrypts, opens: the sealed bytes, or the text of its
/// error.
pub uninterp spec fn opened(key: Seq<u8>, nonce: Seq<u8>, sealed: Seq<u8>) -> Result<
    Seq<u8>,
    Seq<char>,
>;

/// What [`base64::Engine::decode`] reads from a text in the standard alphabet: the bytes, or the
/// text of its error.
pub uninterp spec fn base64_bytes(text: Seq<char>) -> Result<Seq<u8>, Seq<char>>;

/// What [`String::from_utf8`] has to say of bytes that are no text.
pub uninterp spec fn utf8_problem(bytes: Seq<u8>) -> Seq<char>;

/// [`aes_gcm::aead::OsRng`]: random bytes for a nonce, of which only their number is known.
#[verifier::external_body]
fn random_nonce() -> (r: Vec<u8>)
    ensures
        r@.len() == NONCE_BYTES,
{
    let mut bytes = vec![0u8; NONCE_BYTES];
    aes_gcm::aead::rand_core::RngCore::fill_bytes(&mut aes_gcm::aead::OsRng, &mut bytes);
    bytes
}

/// The encryption of AES-256-GCM, [`aes_gcm::aead::Aead::encrypt`]: bytes that open to the plain
/// ones under the same key and nonce. It fails only on texts that are longer than the cipher can
/// take.
#[verifier::external_body]
fn seal(key: &Vec<u8>, nonce: &Vec<u8>, plain: &[u8]) -> (r: Result<Vec<u8>, String>)
    requires
        key@.len() == KEY_BYTES,
        nonce@.len() == NONCE_BYTES,
    ensures
        match r {
            Ok(c) => opened(key@, nonce@, c@) == Ok::<Seq<u8>, Seq<char>>(plain@),
            Err(_) => plain@.len() > SEALABLE_BYTES,
        },
{
    let key = aes_gcm::Key::<aes_gcm::Aes256Gcm>::from_slice(key);
    let cipher = <aes_gcm::Aes256Gcm as aes_gcm::KeyInit>::new(key);
    let nonce = aes_gcm::Nonce::from_slice(nonce);
    aes_gcm::aead::Aead::encrypt(&cipher, nonce, plain).map_err(|e| e.to_string())
}

/// The decryption of AES-256-GCM, [`aes_gcm::aead::Aead::decrypt`]: what sealed bytes open to, or
/// the error as text.
#[verifier::external_body]
fn open_sealed(key: &Vec<u8>, nonce: &Vec<u8>, sealed: &Vec<u8>) -> (r: Result<Vec<u8>, String>)
    requires
        key@.len() == KEY_BYTES,
        nonce@.len() == NONCE_BYTES,
    ensures
        match r {
            Ok(p) => opened(key@, nonce@, sealed@) == Ok::<Seq<u8>, Seq<char>>(p@),
            Err(e) => opened(key@, nonce@, sealed@) == Err::<Seq<u8>, Seq<char>>(e@),
        },
{
    let key = aes_gcm::Key::<aes_gcm::Aes256Gcm>::from_slice(key);
    let cipher = <aes_gcm::Aes256Gcm as aes_gcm::KeyInit>::new(key);
    let nonce = aes_gcm::Nonce::from_slice(nonce);
    aes_gcm::aead::Aead::decrypt(&cipher, nonce, sealed.as_slice()).map_err(|e| e.to_string())
}

/// [`base64::Engine::encode`] in the standard alphabet: a text that reads back as the bytes.
#[verifier::external_body]
fn to_base64(bytes: &Vec<u8>) -> (r: String)
    ensures
        match base64_bytes(r@) {
            Ok(b) => b == bytes@,
            Err(_) => false,
        },
{
    base64::Engine::encode(&base64::engine::general_purpose::STANDARD, bytes)
}

/// [`base64::Engine::decode`] in the standard alphabet: the bytes of a text, or the error as text.
#[verifier::external_body]
fn from_base64(text: &str) -> (r: Result<Vec<u8>, String>)
    ensures
        match r {
            Ok(b) => base64_bytes(text@) == Ok::<Seq<u8>, Seq<char>>(b@),
            Err(e) => base64_bytes(text@) == Err::<Seq<u8>, Seq<char>>(e@),
        },
{
    base64::Engine::decode(&base64::engine::general_purpose::STANDARD, text).map_err(
        |e| e.to_string(),
    )
}

/// [`String::from_utf8`]: the text of bytes, or the error as text if they are none.
#[verifier::external_body]
fn text_of_bytes(bytes: Vec<u8>) -> (r: Result<String, String>)
    ensures
        match r {
            Ok(s) => valid_utf8(bytes@) && s@ == decode_utf8(bytes@),
            Err(e) => !valid_utf8(bytes@) && e@ == utf8_problem(bytes@),
        },
{
    String::from_utf8(bytes).map_err(|e| e.to_string())
}

/// What a hasher has been given after it was fed some bytes: how many they are, as eight bytes with
/// the lowest first, and then the bytes.
pub open spec fn fed(before: Seq<Seq<u8>>, bytes: Seq<u8>) -> Seq<Seq<u8>> {
    before.push(spec_u64_to_le_bytes(bytes.len() as u64)).push(bytes)
}

/// Feeds some bytes to a hasher.
fn feed(bytes: &[u8], hasher: &mut DefaultHasher)
    ensures
        final(hasher)@ == fed(old(hasher)@, bytes@),
{
    let count = vstd::bytes::u64_to_le_bytes(bytes.len() as u64);
    hasher.write(count.as_slice());
    hasher.write(bytes);
}

/// What a sealed text opens to: the base64 text of a nonce and sealed bytes.
pub open spec fn decrypted(key: Seq<u8>, text: Seq<char>) -> Result<Seq<char>, Seq<char>> {
    match base64_bytes(text) {
        Err(e) => Err("base64 decode failed: "@ + e),
        Ok(bytes) => if bytes.len() < NONCE_BYTES {
            Err("invalid encrypted data"@)
        } else {
            opened_text(opened(key, bytes.take(NONCE_BYTES as int), bytes.skip(NONCE_BYTES as int)))
        },
    }
}

/// The text that opened bytes stand for.
pub open spec fn opened_text(plain: Result<Seq<u8>, Seq<char>>) -> Result<Seq<char>, Seq<char>> {
    match plain {
        Err(e) => Err("decryption failed: "@ + e),
        Ok(p) => if valid_utf8(p) {
            Ok(decode_utf8(p))
        } else {
            Err("decrypted data is not valid UTF-8: "@ + utf8_problem(p))
        },
    }
}

/// The key of a text: the first bytes of a text that has enough, else what a hasher comes to after it
/// was fed the text once, twice, three and four times.
pub open spec fn key_of(text: Seq<u8>) -> Seq<u8> {
    if text.len() >= KEY_BYTES {
        text.take(KEY_BYTES as int)
    } else {
        let a = fed(Seq::empty(), text);
        let b = fed(a, text);
        let c = fed(b, text);
        let d = fed(c, text);
        hash_bytes(a) + hash_bytes(b) + hash_bytes(c) + hash_bytes(d)
    }
}

/// The bytes of what a hasher comes to after some writes.
pub open spec fn hash_bytes(writes: Seq<Seq<u8>>) -> Seq<u8> {
    spec_u64_to_le_bytes(DefaultHasher::spec_finish(writes))
}

/// Seals texts under one key.
pub struct SecretBox {
    key: Vec<u8>,
}

/// The first bytes of a list.
fn copy_range(v: &[u8], from: usize, to: usize) -> (r: Vec<u8>)
    requires
        from <= to <= v@.len(),
    ensures
        r@ == v@.subrange(from as int, to as int),
{
    let mut out: Vec<u8> = Vec::new();
    let mut i: usize = from;
    while i < to
        invariant
            from <= i <= to <= v@.len(),
            out@ == v@.subrange(from as int, i as int),
        decreases to - i,
    {
        out.push(v[i]);
        i = i + 1;
        assert(v@.subrange(from as int, i as int) =~= v@.subrange(from as int, i - 1).push(
            v@[i - 1],
        ));
    }
    out
}

impl SecretBox {
    #[verifier::type_invariant]
    spec fn well_formed(self) -> bool {
        self.key@.len() == KEY_BYTES
    }

    /// The key that texts are sealed under.
    pub closed spec fn secret_key(self) -> Seq<u8> {
        self.key@
    }

    /// A box whose key is made of a text: of its first bytes if it has enough, else of hashes of
    /// it.
    pub fn new(encrypt_key: &str) -> (r: Self)
        ensures
            r.secret_key().len() == KEY_BYTES,
            r.secret_key() == key_of(encode_utf8(encrypt_key@)),
    {
        SecretBox { key: SecretBox::derive_key(encrypt_key) }
    }

    /// The key that a text gives: its first bytes if it has enough, else hashes of it.
    pub fn derive_key(encrypt_key: &str) -> (r: Vec<u8>)
        ensures
            r@.len() == KEY_BYTES,
            r@ == key_of(encode_utf8(encrypt_key@)),
    {
        let src = encrypt_key.as_bytes();
        if src.len() >= KEY_BYTES {
            let key = copy_range(src, 0, KEY_BYTES);
            assert(key@ =~= encode_utf8(encrypt_key@).take(KEY_BYTES as int));
            return key;
        }
        let mut hasher = DefaultHasher::new();
        feed(src, &mut hasher);
        let mut key = vstd::bytes::u64_to_le_bytes(hasher.finish());
        feed(src, &mut hasher);
        let mut second = vstd::bytes::u64_to_le_bytes(hasher.finish());
        feed(src, &mut hasher);
        let mut third = vstd::bytes::u64_to_le_bytes(hasher.finish());
        feed(src, &mut hasher);
        let mut fourth = vstd::bytes::u64_to_le_bytes(hasher.finish());
        key.append(&mut second);
        key.append(&mut third);
        key.append(&mut fourth);
        key
    }

    /// The key that texts are sealed under.
    pub fn key(&self) -> (r: Vec<u8>)
        ensures
            r@ == self.secret_key(),
    {
        copy_range(self.key.as_slice(), 0, self.key.len())
    }

    /// A sealed text. It opens to the plain one under the same key; sealing fails only where the
    /// text is longer than the cipher can take.
    pub fn encrypt(&self, plaintext: &str) -> (r: Result<String, String>)
        ensures
            match r {
                Ok(t) => decrypted(self.secret_key(), t@) == Ok::<Seq<char>, Seq<char>>(plaintext@),
                Err(e) => encode_utf8(plaintext@).len() > SEALABLE_BYTES && exists|why: Seq<char>|
                    e@ == #[trigger] ("encryption failed: "@ + why),
            },
    {
        proof {
            use_type_invariant(self);
            vstd::utf8::encode_utf8_valid_utf8(plaintext@);
            vstd::utf8::encode_utf8_decode_utf8(plaintext@);
        }
        let nonce = random_nonce();
        let sealed = match seal(&self.key, &nonce, plaintext.as_bytes()) {
            Ok(c) => c,
            Err(why) => {
                return Err(concat2("encryption failed: ", why.as_str()));
            },
        };
        let mut combined: Vec<u8> = Vec::new();
        let ghost n = nonce@;
        let ghost c = sealed@;
        let mut first = nonce;
        let mut second = sealed;
        combined.append(&mut first);
        combined.append(&mut second);
        proof {
            assert(combined@ =~= n + c);
            assert(combined@.take(NONCE_BYTES as int) =~= n);
            assert(combined@.skip(NONCE_BYTES as int) =~= c);
        }
        Ok(to_base64(&combined))
    }

    /// The text of opened bytes, or why there is none.
    pub fn bytes_opened(plain: Result<Vec<u8>, String>) -> (r: Result<String, String>)
        ensures
            match r {
                Ok(s) => Ok::<Seq<char>, Seq<char>>(s@),
                Err(e) => Err::<Seq<char>, Seq<char>>(e@),
            } == opened_text(
                match plain {
                    Ok(p) => Ok::<Seq<u8>, Seq<char>>(p@),
                    Err(e) => Err::<Seq<u8>, Seq<char>>(e@),
                },
            ),
    {
        match plain {
            Err(e) => Err(concat2("decryption failed: ", e.as_str())),
            Ok(p) => match text_of_bytes(p) {
                Ok(s) => Ok(s),
                Err(e) => Err(concat2("decrypted data is not valid UTF-8: ", e.as_str())),
            },
        }
    }

    /// What a sealed text opens to.
    pub fn decrypt(&self, encoded: &str) -> (r: Result<String, String>)
        ensures
            match r {
                Ok(s) => Ok::<Seq<char>, Seq<char>>(s@),
                Err(e) => Err::<Seq<char>, Seq<char>>(e@),
            } == decrypted(self.secret_key(), encoded@),
    {
        proof {
            use_type_invariant(self);
        }
        let combined = match from_base64(encoded) {
            Ok(b) => b,
            Err(e) => {
                return Err(concat2("base64 decode failed: ", e.as_str()));
            },
        };
        if combined.len() < NONCE_BYTES {
            return Err(owned("invalid encrypted data"));
        }
        let nonce = copy_range(combined.as_slice(), 0, NONCE_BYTES);
        let sealed = copy_range(combined.as_slice(), NONCE_BYTES, combined.len());
        proof {
            assert(nonce@ =~= combined@.take(NONCE_BYTES as int));
            assert(sealed@ =~= combined@.skip(NONCE_BYTES as int));
        }
        SecretBox::bytes_opened(open_sealed(&self.key, &nonce, &sealed))
    }
}

/// A sealed text is opened with the bytes that stand before it as the nonce; one that is too short to
/// hold these, or that is no base64, is refused.
pub proof fn law_a_nonce_stands_before_the_sealed_bytes(
    key: Seq<u8>,
    text: Seq<char>,
    nonce: Seq<u8>,
    sealed: Seq<u8>,
    plain: Seq<u8>,
)
    requires
        nonce.len() == NONCE_BYTES,
    ensures
        base64_bytes(text) is Err ==> decrypted(key, text) is Err,
        (base64_bytes(text) matches Ok(bytes) && bytes.len() < NONCE_BYTES) ==> decrypted(key, text)
            is Err,
        base64_bytes(text) == Ok::<Seq<u8>, Seq<char>>(nonce + sealed) && opened(key, nonce, sealed)
            == Ok::<Seq<u8>, Seq<char>>(plain) && valid_utf8(plain) ==> decrypted(key, text)
            == Ok::<Seq<char>, Seq<char>>(decode_utf8(plain)),
        base64_bytes(text) == Ok::<Seq<u8>, Seq<char>>(nonce + sealed) && opened(key, nonce, sealed)
            is Err ==> decrypted(key, text) is Err,
{
    assert((nonce + sealed).take(NONCE_BYTES as int) =~= nonce);
    assert((nonce + sealed).skip(NONCE_BYTES as int) =~= sealed);
}

/// A key has always the same number of bytes, however long the text is that it was made of; and two
/// long texts with the same first bytes have one key.
pub proof fn law_keys_are_of_one_length(text: Seq<u8>, other: Seq<u8>)
    ensures
        key_of(text).len() == KEY_BYTES,
        text.len() >= KEY_BYTES && other.len() >= KEY_BYTES && text.take(KEY_BYTES as int)
            == other.take(KEY_BYTES as int) ==> key_of(text) == key_of(other),
        text.len() >= KEY_BYTES ==> key_of(text).is_prefix_of(text),
{
    vstd::bytes::lemma_auto_spec_u64_to_from_le_bytes();
}

/// A text that cannot be opened is told by what was wrong with it.
pub proof fn law_what_cannot_be_opened_is_told(key: Seq<u8>, text: Seq<char>, why: Seq<char>)
    ensures
        base64_bytes(text) == Err::<Seq<u8>, Seq<char>>(why) ==> decrypted(key, text) == Err::<
            Seq<char>,
            Seq<char>,
        >("base64 decode failed: "@ + why),
        opened_text(Err(why)) == Err::<Seq<char>, Seq<char>>("decryption failed: "@ + why),
        forall|p: Seq<u8>|
            !valid_utf8(p) ==> #[trigger] opened_text(Ok(p)) == Err::<Seq<char>, Seq<char>>(
                "decrypted data is not valid UTF-8: "@ + utf8_problem(p),
            ),
{
}

} // verus!

//! The outside code the vault relies on: key derivation, authenticated
//! encryption, randomness, wiping, base64, JSON members and date parsing.
//!
//! Each function here makes one outside call; its contract states what the
//! outside crate's source shows of that call, and nothing more.

use argon2::{Algorithm, Argon2, Params, Version};
use base64::engine::general_purpose::STANDARD;
use base64::Engine;
use chacha20poly1305::aead::{Aead, KeyInit};
use chacha20poly1305::{Key, XChaCha20Poly1305, XNonce};
use rand::rngs::OsRng;
use rand::RngCore;
use vstd::prelude::*;
use zeroize::Zeroize;

verus! {

/// The Argon2id (version 0x13) 32-byte output for a password, salt and parameters.
pub uninterp spec fn argon2id_of(
    password: Seq<char>,
    salt: Seq<u8>,
    mem_kib: u32,
    iters: u32,
    parallelism: u32,
) -> Seq<u8>;

/// The XChaCha20-Poly1305 ciphertext (tag included) of `plaintext` under `key` and `nonce`.
pub uninterp spec fn xchacha_seal_of(key: Seq<u8>, nonce: Seq<u8>, plaintext: Seq<u8>) -> Seq<u8>;

/// The standard, padded base64 text of `bytes`.
pub uninterp spec fn b64_of(bytes: Seq<u8>) -> Seq<char>;

/// The string member `key` of the JSON object in `json`, if it has one.
pub uninterp spec fn json_str_member_of(json: Seq<u8>, key: Seq<char>) -> Option<Seq<char>>;

/// The integer member `key` of the JSON object in `json`, if it has one that fits an `i64`.
pub uninterp spec fn json_i64_member_of(json: Seq<u8>, key: Seq<char>) -> Option<i64>;

/// The integer member `key` of the JSON object in `json`, if it has one that fits a `u64`.
pub uninterp spec fn json_u64_member_of(json: Seq<u8>, key: Seq<char>) -> Option<u64>;

/// The JSON text of an object with the given string members and integer members.
pub uninterp spec fn json_object_of(
    str_keys: Seq<Seq<char>>,
    str_vals: Seq<Seq<char>>,
    num_keys: Seq<Seq<char>>,
    num_vals: Seq<u64>,
) -> Seq<u8>;

/// Seconds since the Unix epoch of an RFC 3339 date-time text, if it is one.
pub uninterp spec fn rfc3339_seconds_of(text: Seq<char>) -> Option<i64>;

/// The last component of a path, if it has one.
pub uninterp spec fn file_name_of(path: Seq<char>) -> Option<Seq<char>>;

/// Argon2 parameters that `Params::new` accepts.
pub open spec fn argon_params_ok(mem_kib: u32, iters: u32, parallelism: u32) -> bool {
    &&& mem_kib >= 8
    &&& mem_kib as int >= 8 * parallelism
    &&& iters >= 1
    &&& 1 <= parallelism <= 0xFF_FFFF
}

/// The largest plaintext length the cipher takes: fewer than 2^32 - 1 blocks of 64 bytes.
pub open spec fn aead_len_ok(n: int) -> bool {
    n < 64 * 0xFFFF_FFFF
}

/// No key is repeated.
pub open spec fn keys_distinct(keys: Seq<Seq<char>>) -> bool {
    forall|i: int, j: int| 0 <= i < j < keys.len() ==> keys[i] != keys[j]
}

/// Relies on argon2's `Params::new` and `Argon2::hash_password_into`: refused
/// parameters, or a salt shorter than 8 or longer than 2^32 - 1 bytes, fail;
/// otherwise the 32-byte key depends on the inputs alone.
#[verifier::external_body]
pub(crate) fn derive_key(
    password: &str,
    salt: &Vec<u8>,
    mem_kib: u32,
    iters: u32,
    parallelism: u32,
) -> (r: Option<Vec<u8>>)
    requires
        parallelism <= 0xFF_FFFF,
    ensures
        r is Some ==> r->0@ == argon2id_of(password@, salt@, mem_kib, iters, parallelism),
        r is Some ==> r->0@.len() == 32,
        r is Some ==> argon_params_ok(mem_kib, iters, parallelism) && 8 <= salt@.len() <= 0xFFFF_FFFF,
        argon_params_ok(mem_kib, iters, parallelism) && 8 <= salt@.len() <= 0xFFFF_FFFF
            && password@.len() <= 0x3FFF_FFFF ==> r is Some,
{
    let params = Params::new(mem_kib, iters, parallelism, None).ok()?;
    let argon = Argon2::new(Algorithm::Argon2id, Version::V0x13, params);
    let mut out = vec![0u8; 32];
    argon.hash_password_into(password.as_bytes(), salt, &mut out).ok()?;
    Some(out)
}

/// Relies on chacha20poly1305's `XChaCha20Poly1305::encrypt`: fails only on
/// plaintexts of 2^32 - 1 blocks or more. Under one key and nonce the cipher
/// text is the plaintext XOR a fixed keystream, so no other plaintext gives it.
#[verifier::external_body]
pub(crate) fn aead_seal(key: &Vec<u8>, nonce: &Vec<u8>, plaintext: &Vec<u8>) -> (r: Option<Vec<u8>>)
    requires
        key@.len() == 32,
        nonce@.len() == 24,
    ensures
        r is Some ==> r->0@ == xchacha_seal_of(key@, nonce@, plaintext@),
        r is Some <==> aead_len_ok(plaintext@.len() as int),
        r is Some ==> forall|p: Seq<u8>|
            #![trigger xchacha_seal_of(key@, nonce@, p)]
            xchacha_seal_of(key@, nonce@, p) == r->0@ ==> p == plaintext@,
{
    let aead = XChaCha20Poly1305::new(Key::from_slice(key));
    aead.encrypt(XNonce::from_slice(nonce), plaintext.as_slice()).ok()
}

/// Relies on chacha20poly1305's `XChaCha20Poly1305::decrypt`: it succeeds on
/// exactly the ciphertexts that `encrypt` makes under the same key and nonce,
/// and gives back their plaintext.
#[verifier::external_body]
pub(crate) fn aead_open(key: &Vec<u8>, nonce: &Vec<u8>, ciphertext: &Vec<u8>) -> (r: Option<Vec<u8>>)
    requires
        key@.len() == 32,
        nonce@.len() == 24,
    ensures
        r is Some ==> xchacha_seal_of(key@, nonce@, r->0@) == ciphertext@,
        r is Some ==> aead_len_ok(r->0@.len() as int),
        forall|p: Seq<u8>|
            #![trigger xchacha_seal_of(key@, nonce@, p)]
            xchacha_seal_of(key@, nonce@, p) == ciphertext@ && aead_len_ok(p.len() as int) ==> (
            r is Some && r->0@ == p),
{
    let aead = XChaCha20Poly1305::new(Key::from_slice(key));
    aead.decrypt(XNonce::from_slice(nonce), ciphertext.as_slice()).ok()
}

/// Relies on rand's `OsRng::try_fill_bytes`: `n` bytes from the operating
/// system's generator, or nothing when it fails.
#[verifier::external_body]
pub(crate) fn random_bytes(n: usize) -> (r: Option<Vec<u8>>)
    ensures
        r is Some ==> r->0@.len() == n,
{
    let mut buf = vec![0u8; n];
    match OsRng.try_fill_bytes(&mut buf) {
        Ok(()) => Some(buf),
        Err(_) => None,
    }
}

/// Relies on zeroize's `Zeroize` for `Vec`: the bytes and spare capacity are
/// overwritten with zeros, then the vector is cleared.
#[verifier::external_body]
pub(crate) fn wipe(buf: &mut Vec<u8>)
    ensures
        final(buf)@.len() == 0,
{
    buf.zeroize();
}

/// Relies on base64's `STANDARD` engine `encode`: each text it makes encodes
/// one byte string only.
#[verifier::external_body]
pub(crate) fn b64_encode(bytes: &Vec<u8>) -> (r: String)
    ensures
        r@ == b64_of(bytes@),
        forall|b: Seq<u8>| #[trigger] b64_of(b) == r@ ==> b == bytes@,
{
    STANDARD.encode(bytes)
}

/// Relies on base64's `STANDARD` engine `decode`: with canonical padding and
/// no trailing bits it accepts exactly the texts `encode` makes, and gives
/// back the bytes they were made from.
#[verifier::external_body]
pub(crate) fn b64_decode(text: &str) -> (r: Option<Vec<u8>>)
    ensures
        r is Some ==> b64_of(r->0@) == text@,
        forall|b: Seq<u8>| #[trigger] b64_of(b) == text@ ==> (r is Some && r->0@ == b),
{
    STANDARD.decode(text).ok()
}

/// Relies on serde_json's `from_slice` into a `Value`, then `get` and `as_str`.
#[verifier::external_body]
pub(crate) fn json_str_member(json: &Vec<u8>, key: &str) -> (r: Option<String>)
    ensures
        r is Some ==> json_str_member_of(json@, key@) == Some(r->0@),
        r is None ==> json_str_member_of(json@, key@) is None,
{
    let value: serde_json::Value = serde_json::from_slice(json).ok()?;
    value.get(key)?.as_str().map(String::from)
}

/// Relies on serde_json's `from_slice` into a `Value`, then `get` and `as_i64`.
#[verifier::external_body]
pub(crate) fn json_i64_member(json: &Vec<u8>, key: &str) -> (r: Option<i64>)
    ensures
        r == json_i64_member_of(json@, key@),
{
    let value: serde_json::Value = serde_json::from_slice(json).ok()?;
    value.get(key)?.as_i64()
}

/// Relies on serde_json's `from_slice` into a `Value`, then `get` and `as_u64`.
#[verifier::external_body]
pub(crate) fn json_u64_member(json: &Vec<u8>, key: &str) -> (r: Option<u64>)
    ensures
        r == json_u64_member_of(json@, key@),
{
    let value: serde_json::Value = serde_json::from_slice(json).ok()?;
    value.get(key)?.as_u64()
}

/// Relies on serde_json's `Map::insert` and `to_vec` on an object `Value`,
/// which cannot fail: all keys are strings. With distinct keys, reading a
/// member back with `from_slice` gives the value put in.
#[verifier::external_body]
pub(crate) fn json_object(
    str_keys: &Vec<String>,
    str_vals: &Vec<String>,
    num_keys: &Vec<String>,
    num_vals: &Vec<u64>,
) -> (r: Vec<u8>)
    requires
        str_keys@.len() == str_vals@.len(),
        num_keys@.len() == num_vals@.len(),
    ensures
        r@ == json_object_of(str_keys.deep_view(), str_vals.deep_view(), num_keys.deep_view(), num_vals@),
        keys_distinct(str_keys.deep_view() + num_keys.deep_view()) ==> forall|i: int|
            0 <= i < str_keys@.len() ==> json_str_member_of(r@, #[trigger] str_keys@[i]@) == Some(str_vals@[i]@),
        keys_distinct(str_keys.deep_view() + num_keys.deep_view()) ==> forall|i: int|
            0 <= i < num_keys@.len() ==> json_u64_member_of(r@, #[trigger] num_keys@[i]@) == Some(num_vals@[i]),
{
    let mut members = serde_json::Map::new();
    for (k, v) in str_keys.iter().zip(str_vals) {
        members.insert(k.clone(), serde_json::Value::String(v.clone()));
    }
    for (k, v) in num_keys.iter().zip(num_vals) {
        members.insert(k.clone(), serde_json::Value::from(*v));
    }
    serde_json::to_vec(&serde_json::Value::Object(members)).unwrap_or_default()
}

/// Relies on chrono's `DateTime::parse_from_rfc3339` and `DateTime::timestamp`.
#[verifier::external_body]
pub(crate) fn rfc3339_seconds(text: &str) -> (r: Option<i64>)
    ensures
        r == rfc3339_seconds_of(text@),
{
    chrono::DateTime::parse_from_rfc3339(text).ok().map(|d| d.timestamp())
}

/// Relies on std's `Path::file_name`; a path given as `str` has a UTF-8 last
/// component, so the conversion back to a string loses nothing.
#[verifier::external_body]
pub(crate) fn file_name(path: &str) -> (r: Option<String>)
    ensures
        r is Some ==> file_name_of(path@) == Some(r->0@),
        r is None ==> file_name_of(path@) is None,
{
    std::path::Path::new(path).file_name().map(|s| s.to_string_lossy().into_owned())
}

} // verus!

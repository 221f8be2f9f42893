//! Per-file records: the sealed contents blob, and the envelope that seals
//! the file's metadata payload under the file key.

use crate::keys::{decode_field, decoded, SecretKey};
use crate::model::{EncryptedFileMeta, FileMetaPayload, PayloadView, VaultError};
use crate::primitives::{
    aead_len_ok, aead_open, aead_seal, b64_encode, b64_of, json_object,
    json_object_of, json_str_member, json_str_member_of, json_u64_member, json_u64_member_of,
    keys_distinct, xchacha_seal_of,
};
use vstd::prelude::*;

verus! {

/// The plaintext that `ciphertext` opens to under `key` and `nonce`, if any.
pub open spec fn opened(key: Seq<u8>, nonce: Seq<u8>, ciphertext: Seq<u8>) -> Option<Seq<u8>> {
    if exists|p: Seq<u8>| xchacha_seal_of(key, nonce, p) == ciphertext && aead_len_ok(p.len() as int) {
        Some(
            choose|p: Seq<u8>|
                xchacha_seal_of(key, nonce, p) == ciphertext && aead_len_ok(p.len() as int),
        )
    } else {
        None
    }
}

pub open spec fn payload_str_keys() -> Seq<Seq<char>> {
    seq!["filename"@, "nonce_b64"@, "ciphertext_b64"@]
}

pub open spec fn payload_num_keys() -> Seq<Seq<char>> {
    seq!["file_unlock_date"@]
}

pub open spec fn envelope_keys() -> Seq<Seq<char>> {
    seq!["encrypted_payload_b64"@, "metadata_nonce_b64"@]
}

/// The JSON text of a payload.
pub open spec fn payload_json_spec(p: PayloadView) -> Seq<u8> {
    json_object_of(
        payload_str_keys(),
        seq![p.filename, p.nonce_b64, p.ciphertext_b64],
        payload_num_keys(),
        seq![p.file_unlock_date],
    )
}

/// The JSON text of an envelope.
pub open spec fn envelope_json_spec(payload_b64: Seq<char>, nonce_b64: Seq<char>) -> Seq<u8> {
    json_object_of(envelope_keys(), seq![payload_b64, nonce_b64], seq![], seq![])
}

/// What a payload's JSON text reads as, if it has all four members.
pub open spec fn payload_of(json: Seq<u8>) -> Option<PayloadView> {
    let f = json_str_member_of(json, "filename"@);
    let d = json_u64_member_of(json, "file_unlock_date"@);
    let n = json_str_member_of(json, "nonce_b64"@);
    let c = json_str_member_of(json, "ciphertext_b64"@);
    if f is Some && d is Some && n is Some && c is Some {
        Some(
            PayloadView {
                filename: f->0,
                file_unlock_date: d->0,
                nonce_b64: n->0,
                ciphertext_b64: c->0,
            },
        )
    } else {
        None
    }
}

/// The two members of an envelope, if its text is an object holding both as strings.
pub open spec fn envelope_members(env: Seq<u8>) -> Option<(Seq<char>, Seq<char>)> {
    let p = json_str_member_of(env, "encrypted_payload_b64"@);
    let n = json_str_member_of(env, "metadata_nonce_b64"@);
    if p is Some && n is Some {
        Some((p->0, n->0))
    } else {
        None
    }
}

/// The payload an envelope authenticates to under `key`, if it does.
pub open spec fn envelope_payload(key: Seq<u8>, env: Seq<u8>) -> Option<PayloadView> {
    match envelope_members(env) {
        None => None,
        Some((p, n)) => {
            let ct = decoded(p);
            let nonce = decoded(n);
            if ct is Some && nonce is Some && nonce->0.len() == 24 {
                match opened(key, nonce->0, ct->0) {
                    Some(json) => payload_of(json),
                    None => None,
                }
            } else {
                None
            }
        },
    }
}

/// What opening an envelope gives, by outcome: a payload when it
/// authenticates, `CorruptMetadata` when it is not an envelope at all, and
/// `TamperedMetadata` when it is one that does not authenticate.
pub open spec fn envelope_outcome(key: Seq<u8>, env: Seq<u8>, r: Result<PayloadView, VaultError>) -> bool {
    match r {
        Ok(p) => envelope_payload(key, env) == Some(p),
        Err(VaultError::CorruptMetadata) => envelope_members(env) is None,
        Err(VaultError::TamperedMetadata) => envelope_members(env) is Some && envelope_payload(
            key,
            env,
        ) is None,
        Err(_) => false,
    }
}

/// The contents a blob opens to under `key`, given the payload that describes it.
pub open spec fn content_of(key: Seq<u8>, p: PayloadView, blob: Seq<u8>) -> Option<Seq<u8>> {
    let nonce = decoded(p.nonce_b64);
    if nonce is Some && nonce->0.len() == 24 {
        opened(key, nonce->0, blob)
    } else {
        None
    }
}

proof fn lemma_opened_is(key: Seq<u8>, nonce: Seq<u8>, ciphertext: Seq<u8>, p: Seq<u8>)
    requires
        xchacha_seal_of(key, nonce, p) == ciphertext,
        aead_len_ok(p.len() as int),
        forall|q: Seq<u8>|
            #![trigger xchacha_seal_of(key, nonce, q)]
            xchacha_seal_of(key, nonce, q) == ciphertext && aead_len_ok(q.len() as int) ==> q == p,
    ensures
        opened(key, nonce, ciphertext) == Some(p),
{
}

/// Opens `ciphertext` under a 32-byte key and a 24-byte nonce.
fn open_sealed(key: &Vec<u8>, nonce: &Vec<u8>, ciphertext: &Vec<u8>) -> (r: Option<Vec<u8>>)
    requires
        key@.len() == 32,
        nonce@.len() == 24,
    ensures
        match r {
            Some(p) => opened(key@, nonce@, ciphertext@) == Some(p@),
            None => opened(key@, nonce@, ciphertext@) is None,
        },
{
    let r = aead_open(key, nonce, ciphertext);
    if let Some(p) = &r {
        proof {
            lemma_opened_is(key@, nonce@, ciphertext@, p@);
        }
    }
    r
}

/// Reads a payload from its JSON text.
pub fn parse_payload(json: &Vec<u8>) -> (r: Option<FileMetaPayload>)
    ensures
        match r {
            Some(p) => payload_of(json@) == Some(p@),
            None => payload_of(json@) is None,
        },
{
    let filename = json_str_member(json, "filename");
    let date = json_u64_member(json, "file_unlock_date");
    let nonce_b64 = json_str_member(json, "nonce_b64");
    let ciphertext_b64 = json_str_member(json, "ciphertext_b64");
    match (filename, date, nonce_b64, ciphertext_b64) {
        (Some(filename), Some(file_unlock_date), Some(nonce_b64), Some(ciphertext_b64)) => Some(
            FileMetaPayload { filename, file_unlock_date, nonce_b64, ciphertext_b64 },
        ),
        _ => None,
    }
}

/// Reads an envelope's two members from its JSON text.
pub fn parse_envelope(env: &Vec<u8>) -> (r: Option<EncryptedFileMeta>)
    ensures
        match r {
            Some(m) => envelope_members(env@) == Some(
                (m.encrypted_payload_b64@, m.metadata_nonce_b64@),
            ),
            None => envelope_members(env@) is None,
        },
{
    let payload_b64 = json_str_member(env, "encrypted_payload_b64");
    let nonce_b64 = json_str_member(env, "metadata_nonce_b64");
    match (payload_b64, nonce_b64) {
        (Some(p), Some(n)) => Some(
            EncryptedFileMeta { encrypted_payload_b64: p, metadata_nonce_b64: n },
        ),
        _ => None,
    }
}

/// Writes an envelope as JSON text; reading it back gives the same members.
pub fn encode_envelope(m: &EncryptedFileMeta) -> (r: Vec<u8>)
    ensures
        r@ == envelope_json_spec(m.encrypted_payload_b64@, m.metadata_nonce_b64@),
        envelope_members(r@) == Some((m.encrypted_payload_b64@, m.metadata_nonce_b64@)),
{
    proof {
        reveal_strlit("encrypted_payload_b64");
        reveal_strlit("metadata_nonce_b64");
        lemma_two_keys_distinct("encrypted_payload_b64"@, "metadata_nonce_b64"@);
    }
    let keys = vec![
        String::from_str("encrypted_payload_b64"),
        String::from_str("metadata_nonce_b64"),
    ];
    let vals = vec![m.encrypted_payload_b64.clone(), m.metadata_nonce_b64.clone()];
    let no_keys: Vec<String> = Vec::new();
    let no_vals: Vec<u64> = Vec::new();
    assert(keys.deep_view() =~= envelope_keys());
    assert(no_keys.deep_view() =~= Seq::<Seq<char>>::empty());
    assert(vals.deep_view() =~= seq![m.encrypted_payload_b64@, m.metadata_nonce_b64@]);
    let r = json_object(&keys, &vals, &no_keys, &no_vals);
    assert(keys@[0]@ == "encrypted_payload_b64"@);
    assert(keys@[1]@ == "metadata_nonce_b64"@);
    r
}

/// Opens an envelope under the file key and reads the payload inside.
pub fn open_envelope(key: &SecretKey, env: &Vec<u8>) -> (r: Result<FileMetaPayload, VaultError>)
    requires
        key.wf(),
    ensures
        match r {
            Ok(p) => envelope_outcome(key@, env@, Ok(p@)),
            Err(e) => envelope_outcome(key@, env@, Err(e)),
        },
{
    let outer = match parse_envelope(env) {
        Some(m) => m,
        None => return Err(VaultError::CorruptMetadata),
    };
    let ct = match decode_field(&outer.encrypted_payload_b64) {
        Some(c) => c,
        None => return Err(VaultError::TamperedMetadata),
    };
    let nonce = match decode_field(&outer.metadata_nonce_b64) {
        Some(n) => n,
        None => return Err(VaultError::TamperedMetadata),
    };
    if nonce.len() != 24 {
        return Err(VaultError::TamperedMetadata);
    }
    let json = match open_sealed(key.bytes(), &nonce, &ct) {
        Some(j) => j,
        None => return Err(VaultError::TamperedMetadata),
    };
    match parse_payload(&json) {
        Some(p) => Ok(p),
        None => Err(VaultError::TamperedMetadata),
    }
}

/// Opens a file's contents blob with the content nonce its payload records.
pub fn open_content(key: &SecretKey, payload: &FileMetaPayload, blob: &Vec<u8>) -> (r: Option<
    Vec<u8>,
>)
    requires
        key.wf(),
    ensures
        match r {
            Some(c) => content_of(key@, payload@, blob@) == Some(c@),
            None => content_of(key@, payload@, blob@) is None,
        },
{
    let nonce = match decode_field(&payload.nonce_b64) {
        Some(n) => n,
        None => return None,
    };
    if nonce.len() != 24 {
        return None;
    }
    open_sealed(key.bytes(), &nonce, blob)
}

/// A file ready to be stored: its contents blob, written as
/// `.locked_<filename>`, and its envelope, written as
/// `files_meta/.locked_<filename>.meta.json`.
pub struct SealedFile {
    pub filename: String,
    pub blob: Vec<u8>,
    pub envelope: Vec<u8>,
}

/// The payload recorded for a file sealed under `key` with `content_nonce`.
pub open spec fn sealed_payload_spec(
    key: Seq<u8>,
    filename: Seq<char>,
    file_unlock_date: u64,
    contents: Seq<u8>,
    content_nonce: Seq<u8>,
) -> PayloadView {
    PayloadView {
        filename,
        file_unlock_date,
        nonce_b64: b64_of(content_nonce),
        ciphertext_b64: b64_of(xchacha_seal_of(key, content_nonce, contents)),
    }
}

/// What sealing a file writes, and that what it writes opens again under the
/// same key to the payload and to the contents.
pub open spec fn sealed_file_spec(
    key: Seq<u8>,
    filename: Seq<char>,
    file_unlock_date: u64,
    contents: Seq<u8>,
    content_nonce: Seq<u8>,
    meta_nonce: Seq<u8>,
    name: Seq<char>,
    blob: Seq<u8>,
    envelope: Seq<u8>,
) -> bool {
    let p = sealed_payload_spec(key, filename, file_unlock_date, contents, content_nonce);
    &&& name == filename
    &&& blob == xchacha_seal_of(key, content_nonce, contents)
    &&& envelope == envelope_json_spec(
        b64_of(xchacha_seal_of(key, meta_nonce, payload_json_spec(p))),
        b64_of(meta_nonce),
    )
    &&& envelope_payload(key, envelope) == Some(p)
    &&& content_of(key, p, blob) == Some(contents)
}

proof fn lemma_four_keys_distinct(a: Seq<char>, b: Seq<char>, c: Seq<char>, d: Seq<char>)
    requires
        a.len() < b.len() < c.len() < d.len(),
    ensures
        keys_distinct(seq![a, b, c] + seq![d]),
{
    assert(seq![a, b, c] + seq![d] =~= seq![a, b, c, d]);
}

proof fn lemma_two_keys_distinct(a: Seq<char>, b: Seq<char>)
    requires
        a.len() != b.len(),
    ensures
        keys_distinct(seq![a, b] + Seq::<Seq<char>>::empty()),
{
    assert(seq![a, b] + Seq::<Seq<char>>::empty() =~= seq![a, b]);
}

/// Seals a file's contents under the file key with `content_nonce`, and its
/// payload with `meta_nonce`. Fails with `IoFailure` only when the contents,
/// or the payload's text, are too long for the cipher.
pub fn seal_file(
    key: &SecretKey,
    filename: &str,
    file_unlock_date: u64,
    contents: &Vec<u8>,
    content_nonce: &Vec<u8>,
    meta_nonce: &Vec<u8>,
) -> (r: Result<SealedFile, VaultError>)
    requires
        key.wf(),
        content_nonce@.len() == 24,
        meta_nonce@.len() == 24,
    ensures
        match r {
            Ok(s) => sealed_file_spec(
                key@,
                filename@,
                file_unlock_date,
                contents@,
                content_nonce@,
                meta_nonce@,
                s.filename@,
                s.blob@,
                s.envelope@,
            ),
            Err(e) => e is IoFailure && !(aead_len_ok(contents@.len() as int) && aead_len_ok(
                payload_json_spec(
                    sealed_payload_spec(key@, filename@, file_unlock_date, contents@, content_nonce@),
                ).len() as int,
            )),
        },
{
    let ghost p = sealed_payload_spec(key@, filename@, file_unlock_date, contents@, content_nonce@);
    let blob = match aead_seal(key.bytes(), content_nonce, contents) {
        Some(b) => b,
        None => return Err(VaultError::IoFailure),
    };
    let nonce_b64 = b64_encode(content_nonce);
    let ciphertext_b64 = b64_encode(&blob);
    proof {
        lemma_opened_is(key@, content_nonce@, blob@, contents@);
        reveal_strlit("filename");
        reveal_strlit("nonce_b64");
        reveal_strlit("ciphertext_b64");
        reveal_strlit("file_unlock_date");
        reveal_strlit("encrypted_payload_b64");
        reveal_strlit("metadata_nonce_b64");
    }
    let str_keys = vec![
        String::from_str("filename"),
        String::from_str("nonce_b64"),
        String::from_str("ciphertext_b64"),
    ];
    let str_vals = vec![String::from_str(filename), nonce_b64, ciphertext_b64];
    let num_keys = vec![String::from_str("file_unlock_date")];
    let num_vals = vec![file_unlock_date];
    assert(str_keys.deep_view() =~= payload_str_keys());
    assert(num_keys.deep_view() =~= payload_num_keys());
    assert(str_vals.deep_view() =~= seq![p.filename, p.nonce_b64, p.ciphertext_b64]);
    assert(num_vals@ =~= seq![p.file_unlock_date]);
    proof {
        lemma_four_keys_distinct("filename"@, "nonce_b64"@, "ciphertext_b64"@, "file_unlock_date"@);
    }
    let payload_json = json_object(&str_keys, &str_vals, &num_keys, &num_vals);
    assert(str_keys@[0]@ == "filename"@);
    assert(str_keys@[1]@ == "nonce_b64"@);
    assert(str_keys@[2]@ == "ciphertext_b64"@);
    assert(num_keys@[0]@ == "file_unlock_date"@);
    assert(payload_of(payload_json@) == Some(p));
    let sealed_payload = match aead_seal(key.bytes(), meta_nonce, &payload_json) {
        Some(c) => c,
        None => return Err(VaultError::IoFailure),
    };
    proof {
        lemma_opened_is(key@, meta_nonce@, sealed_payload@, payload_json@);
    }
    let outer = EncryptedFileMeta {
        encrypted_payload_b64: b64_encode(&sealed_payload),
        metadata_nonce_b64: b64_encode(meta_nonce),
    };
    let envelope = encode_envelope(&outer);
    Ok(SealedFile { filename: String::from_str(filename), blob, envelope })
}

} // verus!

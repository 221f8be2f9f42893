//! The vault key: creating a vault's wrapped file key, and unwrapping it
//! again under a password.

use crate::model::{default_argon_params, default_params_spec, VaultError, VaultMetadata};
use crate::primitives::{
    aead_len_ok, aead_open, aead_seal, derive_key, argon2id_of, argon_params_ok, b64_decode,
    b64_encode, b64_of, random_bytes, wipe, xchacha_seal_of,
};
use vstd::prelude::*;

verus! {

/// The bytes a base64 text encodes, if it encodes any.
pub open spec fn decoded(text: Seq<char>) -> Option<Seq<u8>> {
    if exists|b: Seq<u8>| b64_of(b) == text {
        Some(choose|b: Seq<u8>| b64_of(b) == text)
    } else {
        None
    }
}

pub open spec fn salt_of(m: VaultMetadata) -> Seq<u8> {
    decoded(m.salt_b64@)->0
}

pub open spec fn wrap_nonce_of(m: VaultMetadata) -> Seq<u8> {
    decoded(m.wrap_nonce_b64@)->0
}

pub open spec fn wrapped_fek_of(m: VaultMetadata) -> Seq<u8> {
    decoded(m.wrapped_fek_b64@)->0
}

/// Passwords short enough that their UTF-8 bytes fit the key derivation's limit.
pub open spec fn password_len_ok(password: Seq<char>) -> bool {
    password.len() <= 0x3FFF_FFFF
}

/// The key derivation accepts this vault's salt and parameters.
pub open spec fn kdf_accepts(m: VaultMetadata) -> bool {
    &&& argon_params_ok(m.argon_mem_kib, m.argon_iters, m.argon_parallelism)
    &&& 8 <= salt_of(m).len() <= 0xFFFF_FFFF
}

/// The vault's header decodes: salt, wrap nonce and wrapped key are base64,
/// the nonce is 24 bytes, and the key derivation accepts salt and parameters.
pub open spec fn header_ok(m: VaultMetadata) -> bool {
    &&& decoded(m.salt_b64@) is Some
    &&& kdf_accepts(m)
    &&& decoded(m.wrapped_fek_b64@) is Some
    &&& decoded(m.wrap_nonce_b64@) is Some
    &&& wrap_nonce_of(m).len() == 24
}

/// The key-encryption key that `password` gives for this vault.
pub open spec fn kek_spec(m: VaultMetadata, password: Seq<char>) -> Seq<u8> {
    argon2id_of(password, salt_of(m), m.argon_mem_kib, m.argon_iters, m.argon_parallelism)
}

/// `fek` is a 32-byte key whose sealing under `password`'s key is the vault's wrapped key.
pub open spec fn unwraps_to(m: VaultMetadata, password: Seq<char>, fek: Seq<u8>) -> bool {
    &&& header_ok(m)
    &&& fek.len() == 32
    &&& xchacha_seal_of(kek_spec(m, password), wrap_nonce_of(m), fek) == wrapped_fek_of(m)
}

/// `password` opens the vault.
pub open spec fn opens(m: VaultMetadata, password: Seq<char>) -> bool {
    exists|k: Seq<u8>| unwraps_to(m, password, k)
}

/// What unwrapping the file key under `password` gives, by outcome.
pub open spec fn unwrap_outcome(m: VaultMetadata, password: Seq<char>, r: Result<Seq<u8>, VaultError>) -> bool {
    match r {
        Ok(k) => unwraps_to(m, password, k),
        Err(VaultError::InvalidPassword) => header_ok(m) && !opens(m, password),
        Err(VaultError::KdfFailure) => decoded(m.salt_b64@) is Some && !(kdf_accepts(m)
            && password_len_ok(password)),
        Err(VaultError::CorruptMetadata) => !header_ok(m),
        Err(_) => false,
    }
}

/// What a new vault's metadata holds, made from `password` and the drawn
/// salt, file key and wrap nonce.
pub open spec fn new_vault_spec(
    m: VaultMetadata,
    password: Seq<char>,
    salt: Seq<u8>,
    fek: Seq<u8>,
    wrap_nonce: Seq<u8>,
    params: (u32, u32, u32),
    vault_unlock_date: u64,
    creation_ts: u64,
) -> bool {
    let (mem, iters, par) = params;
    let wrapped = xchacha_seal_of(argon2id_of(password, salt, mem, iters, par), wrap_nonce, fek);
    &&& m.version == 1
    &&& m.argon_mem_kib == mem && m.argon_iters == iters && m.argon_parallelism == par
    &&& argon_params_ok(mem, iters, par)
    &&& m.salt_b64@ == b64_of(salt) && decoded(m.salt_b64@) == Some(salt)
    &&& m.wrapped_fek_b64@ == b64_of(wrapped) && decoded(m.wrapped_fek_b64@) == Some(wrapped)
    &&& m.wrap_nonce_b64@ == b64_of(wrap_nonce) && decoded(m.wrap_nonce_b64@) == Some(wrap_nonce)
    &&& m.vault_unlock_date == vault_unlock_date
    &&& m.creation_ts == creation_ts
    &&& m.last_verified_time == 0
}

/// The 32-byte file encryption key, held only for the length of one operation.
pub struct SecretKey {
    bytes: Vec<u8>,
}

impl View for SecretKey {
    type V = Seq<u8>;

    closed spec fn view(&self) -> Seq<u8> {
        self.bytes@
    }
}

impl SecretKey {
    /// A key still holding its 32 bytes.
    pub open spec fn wf(&self) -> bool {
        self@.len() == 32
    }

    pub(crate) fn bytes(&self) -> (r: &Vec<u8>)
        ensures
            r@ == self@,
    {
        &self.bytes
    }

    /// Overwrites the key with zeros and drops its bytes.
    pub fn wipe(&mut self)
        ensures
            final(self)@.len() == 0,
    {
        wipe(&mut self.bytes);
    }
}

proof fn lemma_decoded_is(text: Seq<char>, b: Seq<u8>)
    requires
        b64_of(b) == text,
        forall|c: Seq<u8>| #[trigger] b64_of(c) == text ==> c == b,
    ensures
        decoded(text) == Some(b),
{
}

/// Decodes a base64 text.
pub(crate) fn decode_field(text: &String) -> (r: Option<Vec<u8>>)
    ensures
        match r {
            Some(b) => decoded(text@) == Some(b@),
            None => decoded(text@) is None,
        },
{
    let r = b64_decode(text.as_str());
    if let Some(b) = &r {
        proof {
            lemma_decoded_is(text@, b@);
        }
    }
    r
}

/// Unwraps the vault's file key under `password`.
pub fn open_vault(meta: &VaultMetadata, password: &str) -> (r: Result<SecretKey, VaultError>)
    ensures
        match r {
            Ok(key) => unwrap_outcome(*meta, password@, Ok(key@)) && key.wf(),
            Err(e) => unwrap_outcome(*meta, password@, Err(e)),
        },
        header_ok(*meta) && password_len_ok(password@) ==> (r is Ok || r matches Err(
            VaultError::InvalidPassword,
        )),
        forall|k: Seq<u8>|
            unwraps_to(*meta, password@, k) && password_len_ok(password@) ==> (r matches Ok(key)
                && key@ == k),
{
    let salt = match decode_field(&meta.salt_b64) {
        Some(s) => s,
        None => return Err(VaultError::CorruptMetadata),
    };
    if meta.argon_parallelism > 0xFF_FFFF {
        return Err(VaultError::KdfFailure);
    }
    let mut kek = match derive_key(
        password,
        &salt,
        meta.argon_mem_kib,
        meta.argon_iters,
        meta.argon_parallelism,
    ) {
        Some(k) => k,
        None => return Err(VaultError::KdfFailure),
    };
    let wrapped = match decode_field(&meta.wrapped_fek_b64) {
        Some(w) => w,
        None => {
            wipe(&mut kek);
            return Err(VaultError::CorruptMetadata);
        },
    };
    let nonce = match decode_field(&meta.wrap_nonce_b64) {
        Some(n) => n,
        None => {
            wipe(&mut kek);
            return Err(VaultError::CorruptMetadata);
        },
    };
    if nonce.len() != 24 {
        wipe(&mut kek);
        return Err(VaultError::CorruptMetadata);
    }
    let opened = aead_open(&kek, &nonce, &wrapped);
    wipe(&mut kek);
    match opened {
        Some(fek) => {
            if fek.len() == 32 {
                Ok(SecretKey { bytes: fek })
            } else {
                let mut fek = fek;
                wipe(&mut fek);
                Err(VaultError::InvalidPassword)
            }
        },
        None => Err(VaultError::InvalidPassword),
    }
}

/// Unwraps the file key under `password` and forgets it: succeeds exactly
/// when `password` opens the vault.
pub fn verify_password(meta: &VaultMetadata, password: &str) -> (r: Result<(), VaultError>)
    ensures
        match r {
            Ok(()) => opens(*meta, password@),
            Err(e) => unwrap_outcome(*meta, password@, Err(e)),
        },
        header_ok(*meta) && password_len_ok(password@) ==> (r is Ok || r matches Err(
            VaultError::InvalidPassword,
        )),
        opens(*meta, password@) && password_len_ok(password@) ==> r is Ok,
{
    match open_vault(meta, password) {
        Ok(key) => {
            let mut key = key;
            key.wipe();
            Ok(())
        },
        Err(e) => Err(e),
    }
}

/// Builds a new vault's metadata: derives the key-encryption key from
/// `password` and `salt` with the key derivation parameters `params`
/// (memory in KiB, iterations, parallelism) and seals `fek` under it with
/// `wrap_nonce`. Fails with `KdfFailure` when the parameters are refused.
pub fn seal_new_vault(
    password: &str,
    salt: &Vec<u8>,
    fek: &Vec<u8>,
    wrap_nonce: &Vec<u8>,
    params: (u32, u32, u32),
    vault_unlock_date: u64,
    creation_ts: u64,
) -> (r: Result<VaultMetadata, VaultError>)
    requires
        salt@.len() == 16,
        fek@.len() == 32,
        wrap_nonce@.len() == 24,
    ensures
        match r {
            Ok(m) => new_vault_spec(
                m,
                password@,
                salt@,
                fek@,
                wrap_nonce@,
                params,
                vault_unlock_date,
                creation_ts,
            ),
            Err(e) => e is KdfFailure && !(argon_params_ok(params.0, params.1, params.2)
                && password_len_ok(password@)),
        },
        argon_params_ok(params.0, params.1, params.2) && password_len_ok(password@) ==> r is Ok,
{
    let (mem_kib, iters, parallelism) = params;
    if parallelism > 0xFF_FFFF {
        return Err(VaultError::KdfFailure);
    }
    let mut kek = match derive_key(password, salt, mem_kib, iters, parallelism) {
        Some(k) => k,
        None => return Err(VaultError::KdfFailure),
    };
    let sealed = aead_seal(&kek, wrap_nonce, fek);
    wipe(&mut kek);
    let wrapped = match sealed {
        Some(w) => w,
        None => return Err(VaultError::KdfFailure),
    };
    let salt_b64 = b64_encode(salt);
    let wrapped_fek_b64 = b64_encode(&wrapped);
    let wrap_nonce_b64 = b64_encode(wrap_nonce);
    proof {
        lemma_decoded_is(salt_b64@, salt@);
        lemma_decoded_is(wrapped_fek_b64@, wrapped@);
        lemma_decoded_is(wrap_nonce_b64@, wrap_nonce@);
    }
    Ok(
        VaultMetadata {
            version: 1,
            salt_b64,
            argon_mem_kib: mem_kib,
            argon_iters: iters,
            argon_parallelism: parallelism,
            wrapped_fek_b64,
            wrap_nonce_b64,
            vault_unlock_date,
            creation_ts,
            last_verified_time: 0,
        },
    )
}

/// Creates a new vault's metadata with a freshly drawn salt, file key and
/// wrap nonce. `creation_ts` is the local clock's reading in Unix seconds.
/// Fails with `IoFailure` when the system's random generator fails.
pub fn init_vault(password: &str, vault_unlock_date: u64, creation_ts: u64) -> (r: Result<
    VaultMetadata,
    VaultError,
>)
    ensures
        match r {
            Ok(m) => exists|salt: Seq<u8>, fek: Seq<u8>, nonce: Seq<u8>|
                salt.len() == 16 && fek.len() == 32 && nonce.len() == 24 && new_vault_spec(
                    m,
                    password@,
                    salt,
                    fek,
                    nonce,
                    default_params_spec(),
                    vault_unlock_date,
                    creation_ts,
                ),
            Err(e) => e is IoFailure || (e is KdfFailure && !password_len_ok(password@)),
        },
{
    let mut salt = match random_bytes(16) {
        Some(b) => b,
        None => return Err(VaultError::IoFailure),
    };
    let mut fek = match random_bytes(32) {
        Some(b) => b,
        None => {
            wipe(&mut salt);
            return Err(VaultError::IoFailure);
        },
    };
    let mut wrap_nonce = match random_bytes(24) {
        Some(b) => b,
        None => {
            wipe(&mut salt);
            wipe(&mut fek);
            return Err(VaultError::IoFailure);
        },
    };
    let r = seal_new_vault(
        password,
        &salt,
        &fek,
        &wrap_nonce,
        default_argon_params(),
        vault_unlock_date,
        creation_ts,
    );
    let ghost (s0, f0, n0) = (salt@, fek@, wrap_nonce@);
    wipe(&mut salt);
    wipe(&mut fek);
    wipe(&mut wrap_nonce);
    proof {
        if r is Ok {
            assert(new_vault_spec(
                r->Ok_0,
                password@,
                s0,
                f0,
                n0,
                default_params_spec(),
                vault_unlock_date,
                creation_ts,
            ));
        }
    }
    r
}

/// A vault made with `password` has a well-formed header, and `password`
/// unwraps the very file key it was made with.
pub proof fn lemma_new_vault_opens(
    m: VaultMetadata,
    password: Seq<char>,
    salt: Seq<u8>,
    fek: Seq<u8>,
    wrap_nonce: Seq<u8>,
    params: (u32, u32, u32),
    vault_unlock_date: u64,
    creation_ts: u64,
)
    requires
        salt.len() == 16,
        fek.len() == 32,
        wrap_nonce.len() == 24,
        new_vault_spec(m, password, salt, fek, wrap_nonce, params, vault_unlock_date, creation_ts),
    ensures
        header_ok(m),
        unwraps_to(m, password, fek),
        opens(m, password),
{
    assert(unwraps_to(m, password, fek));
}

/// On a vault made with some password, any other password that the key
/// derivation takes either opens the vault or is refused as invalid: no other
/// error can come of it.
pub proof fn lemma_password_gate(
    m: VaultMetadata,
    password: Seq<char>,
    salt: Seq<u8>,
    fek: Seq<u8>,
    wrap_nonce: Seq<u8>,
    params: (u32, u32, u32),
    vault_unlock_date: u64,
    creation_ts: u64,
    other: Seq<char>,
    e: VaultError,
)
    requires
        salt.len() == 16,
        fek.len() == 32,
        wrap_nonce.len() == 24,
        new_vault_spec(m, password, salt, fek, wrap_nonce, params, vault_unlock_date, creation_ts),
        password_len_ok(other),
        unwrap_outcome(m, other, Err(e)),
    ensures
        e is InvalidPassword,
        !opens(m, other),
{
}

} // verus!

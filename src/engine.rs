//! The vault's operations. Each takes what the caller has read from disk or
//! from a time server, and returns what the caller is to write.

use crate::keys::{
    header_ok, open_vault, opens, password_len_ok, unwrap_outcome, unwraps_to, SecretKey,
};
use crate::model::{FileMetaPayload, PayloadView, VaultError, VaultMetadata};
use crate::primitives::{file_name, file_name_of, random_bytes};
use crate::records::{
    content_of, envelope_members, envelope_payload, open_envelope, seal_file, sealed_file_spec,
    sealed_payload_spec, SealedFile,
};
use vstd::prelude::*;

verus! {

/// The regression guard: a server time below the highest one seen is
/// refused, unless no time has been seen yet.
pub open spec fn time_regresses(last_verified_time: u64, server_time: u64) -> bool {
    last_verified_time != 0 && server_time < last_verified_time
}

/// Applies the regression guard to a freshly observed server time.
pub fn check_server_time(last_verified_time: u64, server_time: u64) -> (r: Result<(), VaultError>)
    ensures
        r is Ok <==> !time_regresses(last_verified_time, server_time),
        r is Err ==> r matches Err(VaultError::TimeRegression),
{
    if last_verified_time != 0 && server_time < last_verified_time {
        Err(VaultError::TimeRegression)
    } else {
        Ok(())
    }
}

/// `new` is `old` with only the highest verified time replaced.
pub open spec fn with_time(old: VaultMetadata, new: VaultMetadata, t: u64) -> bool {
    new == VaultMetadata { last_verified_time: t, ..old }
}

/// Records a server time in the vault metadata after the regression guard
/// accepts it; on refusal the metadata is left as it was. The recorded time
/// never decreases.
pub fn record_server_time(meta: &mut VaultMetadata, server_time: u64) -> (r: Result<(), VaultError>)
    ensures
        r is Ok <==> !time_regresses(old(meta).last_verified_time, server_time),
        r is Ok ==> with_time(*old(meta), *final(meta), server_time),
        r is Err ==> (r matches Err(VaultError::TimeRegression) && *final(meta) == *old(meta)),
        final(meta).last_verified_time >= old(meta).last_verified_time,
{
    match check_server_time(meta.last_verified_time, server_time) {
        Ok(()) => {
            meta.last_verified_time = server_time;
            Ok(())
        },
        Err(e) => Err(e),
    }
}

/// The name a new file is stored under: the one given, or else the last
/// component of its source path.
pub open spec fn resolved_name(file_path: Seq<char>, custom_filename: Option<Seq<char>>) -> Option<
    Seq<char>,
> {
    let name = match custom_filename {
        Some(c) => Some(c),
        None => file_name_of(file_path),
    };
    if name is Some && name->0.len() > 0 {
        name
    } else {
        None
    }
}

pub open spec fn name_view(name: Option<String>) -> Option<Seq<char>> {
    match name {
        Some(n) => Some(n@),
        None => None,
    }
}

/// Resolves the display filename; fails with `BadFilename` when there is none.
pub fn resolve_filename(file_path: &str, custom_filename: Option<String>) -> (r: Result<
    String,
    VaultError,
>)
    ensures
        match r {
            Ok(n) => resolved_name(file_path@, name_view(custom_filename)) == Some(n@),
            Err(e) => e is BadFilename && resolved_name(
                file_path@,
                name_view(custom_filename),
            ) is None,
        },
{
    let name = match custom_filename {
        Some(c) => Some(c),
        None => file_name(file_path),
    };
    match name {
        Some(n) => {
            if n.unicode_len() > 0 {
                Ok(n)
            } else {
                Err(VaultError::BadFilename)
            }
        },
        None => Err(VaultError::BadFilename),
    }
}

/// Some envelope among `envelopes` authenticates under `key` to a payload named `name`.
pub open spec fn has_file(key: Seq<u8>, envelopes: Seq<Seq<u8>>, name: Seq<char>) -> bool {
    exists|i: int|
        0 <= i < envelopes.len() && #[trigger] envelope_payload(key, envelopes[i]) is Some
            && envelope_payload(key, envelopes[i])->0.filename == name
}

/// Looks for a stored file of the given name; envelopes that do not
/// authenticate are passed over.
pub fn find_file(key: &SecretKey, envelopes: &Vec<StoredEnvelope>, name: &str) -> (r: bool)
    requires
        key.wf(),
    ensures
        r == has_file(key@, envelope_bytes(envelopes@), name@),
{
    let mut i: usize = 0;
    while i < envelopes.len()
        invariant
            key.wf(),
            i <= envelopes@.len(),
            !has_file(key@, envelope_bytes(envelopes@).subrange(0, i as int), name@),
        decreases envelopes@.len() - i,
    {
        let ghost prefix = envelope_bytes(envelopes@).subrange(0, i as int);
        let ghost next = envelope_bytes(envelopes@).subrange(0, i + 1);
        assert(next[i as int] == envelopes@[i as int].bytes@);
        assert(envelope_bytes(envelopes@)[i as int] == envelopes@[i as int].bytes@);
        let opened = open_envelope(key, &envelopes[i].bytes);
        if let Ok(p) = opened {
            if p.filename == String::from_str(name) {
                assert(has_file(key@, envelope_bytes(envelopes@), name@));
                return true;
            }
        }
        assert forall|j: int|
            0 <= j < next.len() && #[trigger] envelope_payload(key@, next[j]) is Some implies
                envelope_payload(key@, next[j])->0.filename != name@ by {
            if j < i {
                assert(next[j] == prefix[j]);
            }
        }
        i = i + 1;
    }
    assert(envelope_bytes(envelopes@).subrange(0, i as int) =~= envelope_bytes(envelopes@));
    false
}

/// The file stored as `filename` was sealed under the file key `k` with the
/// nonces `cn` and `mn`, and no stored file had its name.
pub open spec fn added_with(
    m: VaultMetadata,
    password: Seq<char>,
    name: Option<Seq<char>>,
    envelopes: Seq<Seq<u8>>,
    file_unlock_date: u64,
    contents: Seq<u8>,
    k: Seq<u8>,
    cn: Seq<u8>,
    mn: Seq<u8>,
    filename: Seq<char>,
    blob: Seq<u8>,
    envelope: Seq<u8>,
) -> bool {
    &&& unwraps_to(m, password, k)
    &&& cn.len() == 24
    &&& mn.len() == 24
    &&& name == Some(filename)
    &&& !has_file(k, envelopes, filename)
    &&& sealed_file_spec(k, filename, file_unlock_date, contents, cn, mn, filename, blob, envelope)
}

/// The file stored as `filename` was sealed under a key that the password
/// unwraps, and no stored file had its name.
pub open spec fn added(
    m: VaultMetadata,
    password: Seq<char>,
    name: Option<Seq<char>>,
    envelopes: Seq<Seq<u8>>,
    file_unlock_date: u64,
    contents: Seq<u8>,
    filename: Seq<char>,
    blob: Seq<u8>,
    envelope: Seq<u8>,
) -> bool {
    exists|k: Seq<u8>, cn: Seq<u8>, mn: Seq<u8>|
        added_with(
            m,
            password,
            name,
            envelopes,
            file_unlock_date,
            contents,
            k,
            cn,
            mn,
            filename,
            blob,
            envelope,
        )
}

/// What adding a file gives, by outcome: the sealed file when the password
/// opens the vault, a name resolves and no stored file has it; otherwise the
/// first of these that fails.
pub open spec fn add_outcome(
    m: VaultMetadata,
    password: Seq<char>,
    file_path: Seq<char>,
    custom_filename: Option<Seq<char>>,
    file_unlock_date: u64,
    contents: Seq<u8>,
    envelopes: Seq<Seq<u8>>,
    r: Result<(Seq<char>, Seq<u8>, Seq<u8>), VaultError>,
) -> bool {
    let name = resolved_name(file_path, custom_filename);
    match r {
        Ok(t) => added(m, password, name, envelopes, file_unlock_date, contents, t.0, t.1, t.2),
        Err(VaultError::FileExists(n)) => exists|k: Seq<u8>|
            #![trigger has_file(k, envelopes, n@)]
            unwraps_to(m, password, k) && name == Some(n@) && has_file(k, envelopes, n@),
        Err(VaultError::BadFilename) => opens(m, password) && name is None,
        Err(VaultError::IoFailure) => exists|k: Seq<u8>|
            #![trigger has_file(k, envelopes, name->0)]
            unwraps_to(m, password, k) && name is Some && !has_file(k, envelopes, name->0),
        Err(e) => unwrap_outcome(m, password, Err(e)),
    }
}

/// Seals a new file into the vault: unwraps the file key under `password`,
/// resolves the display name (`custom_filename`, else the last component of
/// `file_path`), refuses a name that an authenticated envelope among
/// `envelopes` already holds, and seals `contents` with fresh nonces.
/// `IoFailure` comes when the random generator fails or the contents are too
/// long for the cipher.
pub fn add_file_with_name(
    meta: &VaultMetadata,
    password: &str,
    file_path: &str,
    contents: &Vec<u8>,
    file_unlock_date: u64,
    custom_filename: Option<String>,
    envelopes: &Vec<StoredEnvelope>,
) -> (r: Result<SealedFile, VaultError>)
    ensures
        match r {
            Ok(s) => add_outcome(
                *meta,
                password@,
                file_path@,
                name_view(custom_filename),
                file_unlock_date,
                contents@,
                envelope_bytes(envelopes@),
                Ok((s.filename@, s.blob@, s.envelope@)),
            ),
            Err(e) => add_outcome(
                *meta,
                password@,
                file_path@,
                name_view(custom_filename),
                file_unlock_date,
                contents@,
                envelope_bytes(envelopes@),
                Err(e),
            ),
        },
        forall|k: Seq<u8>, n: Seq<char>|
            #![trigger unwraps_to(*meta, password@, k), has_file(k, envelope_bytes(envelopes@), n)]
            unwraps_to(*meta, password@, k) && password_len_ok(password@) && resolved_name(
                file_path@,
                name_view(custom_filename),
            ) == Some(n) && has_file(k, envelope_bytes(envelopes@), n) ==> (r matches Err(
                VaultError::FileExists(x),
            ) && x@ == n),
{
    let ghost custom = name_view(custom_filename);
    let mut key = match open_vault(meta, password) {
        Ok(k) => k,
        Err(e) => return Err(e),
    };
    let ghost k = key@;
    assert(opens(*meta, password@)) by {
        assert(unwraps_to(*meta, password@, k));
    }
    let name = match resolve_filename(file_path, custom_filename) {
        Ok(n) => n,
        Err(e) => {
            key.wipe();
            return Err(e);
        },
    };
    if find_file(&key, envelopes, name.as_str()) {
        key.wipe();
        let r = Err(VaultError::FileExists(name));
        assert(r matches Err(VaultError::FileExists(n)) && n@ == name@);
        return r;
    }
    let content_nonce = match random_bytes(24) {
        Some(n) => n,
        None => {
            key.wipe();
            return Err(VaultError::IoFailure);
        },
    };
    let meta_nonce = match random_bytes(24) {
        Some(n) => n,
        None => {
            key.wipe();
            return Err(VaultError::IoFailure);
        },
    };
    let r = seal_file(&key, name.as_str(), file_unlock_date, contents, &content_nonce, &meta_nonce);
    key.wipe();
    proof {
        if r is Ok {
            let s = r->Ok_0;
            let name = resolved_name(file_path@, custom);
            let envs = envelope_bytes(envelopes@);
            assert(added_with(*meta, password@, name, envs, file_unlock_date, contents@, k,
                content_nonce@, meta_nonce@, s.filename@, s.blob@, s.envelope@));
        }
    }
    r
}

/// Adds a file under the last component of its source path.
pub fn add_file(
    meta: &VaultMetadata,
    password: &str,
    file_path: &str,
    contents: &Vec<u8>,
    file_unlock_date: u64,
    envelopes: &Vec<StoredEnvelope>,
) -> (r: Result<SealedFile, VaultError>)
    ensures
        match r {
            Ok(s) => add_outcome(
                *meta,
                password@,
                file_path@,
                None,
                file_unlock_date,
                contents@,
                envelope_bytes(envelopes@),
                Ok((s.filename@, s.blob@, s.envelope@)),
            ),
            Err(e) => add_outcome(
                *meta,
                password@,
                file_path@,
                None,
                file_unlock_date,
                contents@,
                envelope_bytes(envelopes@),
                Err(e),
            ),
        },
{
    add_file_with_name(meta, password, file_path, contents, file_unlock_date, None, envelopes)
}

/// An envelope as found in `files_meta/`: its file name and its bytes.
pub struct StoredEnvelope {
    pub name: String,
    pub bytes: Vec<u8>,
}

/// A stored envelope that could not be read: `tampered` when it is an
/// envelope that fails authentication, else it is not an envelope at all.
pub struct MetaWarning {
    pub file: String,
    pub tampered: bool,
}

/// What a status listing shows: every readable payload, in the order of the
/// envelopes, and a warning for each envelope that is not readable.
pub struct StatusReport {
    pub records: Vec<FileMetaPayload>,
    pub warnings: Vec<MetaWarning>,
}

/// What an unlock releases: the readable payloads that are due, in the order
/// of the envelopes, and a warning for each envelope that is not readable.
pub struct UnlockPlan {
    pub due: Vec<FileMetaPayload>,
    pub warnings: Vec<MetaWarning>,
}

pub open spec fn envelope_bytes(es: Seq<StoredEnvelope>) -> Seq<Seq<u8>> {
    es.map_values(|e: StoredEnvelope| e.bytes@)
}

pub open spec fn payload_views(ps: Seq<FileMetaPayload>) -> Seq<PayloadView> {
    ps.map_values(|p: FileMetaPayload| p@)
}

pub open spec fn warning_views(ws: Seq<MetaWarning>) -> Seq<(Seq<char>, bool)> {
    ws.map_values(|w: MetaWarning| (w.file@, w.tampered))
}

/// The payloads that the envelopes authenticate to under `key`, in order.
pub open spec fn readable(key: Seq<u8>, envs: Seq<Seq<u8>>) -> Seq<PayloadView>
    decreases envs.len(),
{
    if envs.len() == 0 {
        Seq::empty()
    } else {
        let prev = readable(key, envs.drop_last());
        match envelope_payload(key, envs.last()) {
            Some(p) => prev.push(p),
            None => prev,
        }
    }
}

/// A warning for each envelope that does not authenticate under `key`: its
/// file name, and whether it is an envelope at all.
pub open spec fn warnings_spec(key: Seq<u8>, es: Seq<StoredEnvelope>) -> Seq<(Seq<char>, bool)>
    decreases es.len(),
{
    if es.len() == 0 {
        Seq::empty()
    } else {
        let prev = warnings_spec(key, es.drop_last());
        let e = es.last();
        if envelope_payload(key, e.bytes@) is Some {
            prev
        } else {
            prev.push((e.name@, envelope_members(e.bytes@) is Some))
        }
    }
}

/// The payloads whose unlock date has come at `server_time`, in order.
pub open spec fn due_spec(ps: Seq<PayloadView>, server_time: u64) -> Seq<PayloadView>
    decreases ps.len(),
{
    if ps.len() == 0 {
        Seq::empty()
    } else {
        let prev = due_spec(ps.drop_last(), server_time);
        if ps.last().file_unlock_date <= server_time {
            prev.push(ps.last())
        } else {
            prev
        }
    }
}

proof fn lemma_prefix_step(es: Seq<StoredEnvelope>, i: int)
    requires
        0 <= i < es.len(),
    ensures
        es.subrange(0, i + 1).drop_last() == es.subrange(0, i),
        es.subrange(0, i + 1).last() == es[i],
        envelope_bytes(es.subrange(0, i + 1)).drop_last() == envelope_bytes(es.subrange(0, i)),
        envelope_bytes(es.subrange(0, i + 1)).last() == es[i].bytes@,
        envelope_bytes(es.subrange(0, i + 1)).len() == i + 1,
{
    assert(es.subrange(0, i + 1).drop_last() =~= es.subrange(0, i));
    assert(envelope_bytes(es.subrange(0, i + 1)).drop_last() =~= envelope_bytes(es.subrange(0, i)));
}

/// Reads every envelope under the file key: readable payloads are listed and
/// the rest are warned of.
pub fn scan_envelopes(key: &SecretKey, entries: &Vec<StoredEnvelope>) -> (r: StatusReport)
    requires
        key.wf(),
    ensures
        payload_views(r.records@) == readable(key@, envelope_bytes(entries@)),
        warning_views(r.warnings@) == warnings_spec(key@, entries@),
{
    let mut records: Vec<FileMetaPayload> = Vec::new();
    let mut warnings: Vec<MetaWarning> = Vec::new();
    let mut i: usize = 0;
    while i < entries.len()
        invariant
            key.wf(),
            i <= entries@.len(),
            payload_views(records@) == readable(key@, envelope_bytes(entries@.subrange(0, i as int))),
            warning_views(warnings@) == warnings_spec(key@, entries@.subrange(0, i as int)),
        decreases entries@.len() - i,
    {
        proof {
            lemma_prefix_step(entries@, i as int);
        }
        let e = &entries[i];
        match open_envelope(key, &e.bytes) {
            Ok(p) => {
                records.push(p);
                assert(payload_views(records@) =~= readable(key@, envelope_bytes(entries@.subrange(0, i + 1))));
                assert(warning_views(warnings@) =~= warnings_spec(key@, entries@.subrange(0, i + 1)));
            },
            Err(err) => {
                let tampered = match err {
                    VaultError::TamperedMetadata => true,
                    _ => false,
                };
                warnings.push(MetaWarning { file: e.name.clone(), tampered });
                assert(payload_views(records@) =~= readable(key@, envelope_bytes(entries@.subrange(0, i + 1))));
                assert(warning_views(warnings@) =~= warnings_spec(key@, entries@.subrange(0, i + 1)));
            },
        }
        i = i + 1;
    }
    assert(entries@.subrange(0, i as int) =~= entries@);
    StatusReport { records, warnings }
}

/// Lists the vault's files under `password`: their payloads, and a warning
/// for each envelope that cannot be read. Does not consult the time.
pub fn get_status_with_password(
    meta: &VaultMetadata,
    password: &str,
    entries: &Vec<StoredEnvelope>,
) -> (r: Result<StatusReport, VaultError>)
    ensures
        match r {
            Ok(rep) => exists|k: Seq<u8>|
                #![trigger readable(k, envelope_bytes(entries@))]
                unwraps_to(*meta, password@, k) && payload_views(rep.records@) == readable(
                    k,
                    envelope_bytes(entries@),
                ) && warning_views(rep.warnings@) == warnings_spec(k, entries@),
            Err(e) => unwrap_outcome(*meta, password@, Err(e)),
        },
        header_ok(*meta) && password_len_ok(password@) ==> (r is Ok || r matches Err(
            VaultError::InvalidPassword,
        )),
{
    let mut key = match open_vault(meta, password) {
        Ok(k) => k,
        Err(e) => return Err(e),
    };
    let ghost k = key@;
    let rep = scan_envelopes(&key, entries);
    key.wipe();
    assert(readable(k, envelope_bytes(entries@)) == payload_views(rep.records@));
    Ok(rep)
}

/// Decides what an unlock releases at `server_time`, as given by the time
/// oracle. The regression guard comes first: on `TimeRegression` nothing is
/// released and the metadata is left as it was. Otherwise `server_time` is
/// recorded as the highest verified time, and every readable payload whose
/// unlock date has come is released. The vault's own unlock date is
/// informational: only each file's date gates its release.
pub fn unlock_vault(
    meta: &mut VaultMetadata,
    key: &SecretKey,
    server_time: u64,
    entries: &Vec<StoredEnvelope>,
) -> (r: Result<UnlockPlan, VaultError>)
    requires
        key.wf(),
    ensures
        match r {
            Ok(plan) => {
                &&& !time_regresses(old(meta).last_verified_time, server_time)
                &&& with_time(*old(meta), *final(meta), server_time)
                &&& payload_views(plan.due@) == due_spec(
                    readable(key@, envelope_bytes(entries@)),
                    server_time,
                )
                &&& warning_views(plan.warnings@) == warnings_spec(key@, entries@)
            },
            Err(e) => e is TimeRegression && time_regresses(old(meta).last_verified_time, server_time)
                && *final(meta) == *old(meta),
        },
        final(meta).last_verified_time >= old(meta).last_verified_time,
{
    if let Err(e) = check_server_time(meta.last_verified_time, server_time) {
        return Err(e);
    }
    let mut due: Vec<FileMetaPayload> = Vec::new();
    let mut warnings: Vec<MetaWarning> = Vec::new();
    let mut i: usize = 0;
    while i < entries.len()
        invariant
            key.wf(),
            i <= entries@.len(),
            payload_views(due@) == due_spec(
                readable(key@, envelope_bytes(entries@.subrange(0, i as int))),
                server_time,
            ),
            warning_views(warnings@) == warnings_spec(key@, entries@.subrange(0, i as int)),
        decreases entries@.len() - i,
    {
        proof {
            lemma_prefix_step(entries@, i as int);
        }
        let ghost before = readable(key@, envelope_bytes(entries@.subrange(0, i as int)));
        let e = &entries[i];
        match open_envelope(key, &e.bytes) {
            Ok(p) => {
                let ghost after = before.push(p@);
                assert(after.drop_last() =~= before);
                assert(readable(key@, envelope_bytes(entries@.subrange(0, i + 1))) == after);
                if p.file_unlock_date <= server_time {
                    due.push(p);
                }
                assert(payload_views(due@) =~= due_spec(after, server_time));
            },
            Err(err) => {
                let tampered = match err {
                    VaultError::TamperedMetadata => true,
                    _ => false,
                };
                warnings.push(MetaWarning { file: e.name.clone(), tampered });
            },
        }
        assert(warning_views(warnings@) =~= warnings_spec(key@, entries@.subrange(0, i + 1)));
        i = i + 1;
    }
    assert(entries@.subrange(0, i as int) =~= entries@);
    meta.last_verified_time = server_time;
    Ok(UnlockPlan { due, warnings })
}

/// A readable payload is released at `server_time` exactly when its unlock
/// date has come.
pub proof fn lemma_time_gate(ps: Seq<PayloadView>, server_time: u64, p: PayloadView)
    ensures
        due_spec(ps, server_time).contains(p) <==> (ps.contains(p) && p.file_unlock_date
            <= server_time),
    decreases ps.len(),
{
    if ps.len() > 0 {
        let prev = ps.drop_last();
        lemma_time_gate(prev, server_time, p);
        let d = due_spec(prev, server_time);
        if ps.contains(p) && p.file_unlock_date <= server_time {
            let j = choose|j: int| 0 <= j < ps.len() && ps[j] == p;
            if j < ps.len() - 1 {
                assert(prev[j] == p);
                let m = choose|m: int| 0 <= m < d.len() && d[m] == p;
                if ps.last().file_unlock_date <= server_time {
                    assert(d.push(ps.last())[m] == p);
                }
            } else {
                assert(d.push(ps.last())[d.len() as int] == p);
            }
        }
        if due_spec(ps, server_time).contains(p) {
            let m = choose|m: int|
                0 <= m < due_spec(ps, server_time).len() && due_spec(ps, server_time)[m] == p;
            if m < d.len() {
                assert(d[m] == p);
                let j = choose|j: int| 0 <= j < prev.len() && prev[j] == p;
                assert(ps[j] == p);
            } else {
                assert(ps[ps.len() - 1] == p);
            }
        }
    }
}

/// Every envelope that authenticates under `key` contributes its payload to
/// what is readable.
pub proof fn lemma_readable_contains(key: Seq<u8>, envs: Seq<Seq<u8>>, i: int)
    requires
        0 <= i < envs.len(),
        envelope_payload(key, envs[i]) is Some,
    ensures
        readable(key, envs).contains(envelope_payload(key, envs[i])->0),
    decreases envs.len(),
{
    let prev = envs.drop_last();
    let r = readable(key, prev);
    if i < envs.len() - 1 {
        assert(prev[i] == envs[i]);
        lemma_readable_contains(key, prev, i);
        let m = choose|m: int| 0 <= m < r.len() && r[m] == envelope_payload(key, envs[i])->0;
        if envelope_payload(key, envs.last()) is Some {
            assert(r.push(envelope_payload(key, envs.last())->0)[m] == r[m]);
        }
    } else {
        assert(r.push(envelope_payload(key, envs.last())->0)[r.len() as int] == envelope_payload(
            key,
            envs[i],
        )->0);
    }
}

/// Every readable payload is what some envelope authenticates to under
/// `key`: an envelope that does not authenticate contributes nothing.
pub proof fn lemma_readable_sources(key: Seq<u8>, envs: Seq<Seq<u8>>, p: PayloadView)
    requires
        readable(key, envs).contains(p),
    ensures
        exists|j: int| 0 <= j < envs.len() && envelope_payload(key, #[trigger] envs[j]) == Some(p),
    decreases envs.len(),
{
    let prev = envs.drop_last();
    let r = readable(key, prev);
    let m = choose|m: int| 0 <= m < readable(key, envs).len() && readable(key, envs)[m] == p;
    if m < r.len() {
        assert(r[m] == p);
        lemma_readable_sources(key, prev, p);
        let j = choose|j: int| 0 <= j < prev.len() && envelope_payload(key, #[trigger] prev[j]) == Some(p);
        assert(envs[j] == prev[j]);
    } else {
        assert(envs[envs.len() - 1] == envs.last());
    }
}

/// An envelope that does not authenticate under `key` is left out of what
/// is readable: the readable payloads are the same without it.
pub proof fn lemma_unreadable_excluded(key: Seq<u8>, envs: Seq<Seq<u8>>, i: int)
    requires
        0 <= i < envs.len(),
        envelope_payload(key, envs[i]) is None,
    ensures
        readable(key, envs) == readable(key, envs.remove(i)),
    decreases envs.len(),
{
    if i == envs.len() - 1 {
        assert(envs.remove(i) =~= envs.drop_last());
    } else {
        let prev = envs.drop_last();
        assert(prev[i] == envs[i]);
        lemma_unreadable_excluded(key, prev, i);
        assert(envs.remove(i).drop_last() =~= prev.remove(i));
        assert(envs.remove(i).last() == envs.last());
    }
}

/// An envelope that does not authenticate under `key` is warned of, under
/// its file name.
pub proof fn lemma_unreadable_warned(key: Seq<u8>, es: Seq<StoredEnvelope>, i: int)
    requires
        0 <= i < es.len(),
        envelope_payload(key, es[i].bytes@) is None,
    ensures
        warnings_spec(key, es).contains((es[i].name@, envelope_members(es[i].bytes@) is Some)),
    decreases es.len(),
{
    let prev = es.drop_last();
    let w = warnings_spec(key, prev);
    let item = (es[i].name@, envelope_members(es[i].bytes@) is Some);
    if i < es.len() - 1 {
        assert(prev[i] == es[i]);
        lemma_unreadable_warned(key, prev, i);
        let m = choose|m: int| 0 <= m < w.len() && w[m] == item;
        let last = es.last();
        if envelope_payload(key, last.bytes@) is None {
            assert(w.push((last.name@, envelope_members(last.bytes@) is Some))[m] == item);
        }
    } else {
        assert(w.push(item)[w.len() as int] == item);
    }
}

/// A file sealed under the vault's key, once its envelope is among those
/// stored, is released at any server time at or after its unlock date, and
/// its blob opens to exactly the contents it was sealed from.
pub proof fn lemma_round_trip(
    key: Seq<u8>,
    filename: Seq<char>,
    file_unlock_date: u64,
    contents: Seq<u8>,
    content_nonce: Seq<u8>,
    meta_nonce: Seq<u8>,
    blob: Seq<u8>,
    envelope: Seq<u8>,
    es: Seq<StoredEnvelope>,
    i: int,
    server_time: u64,
)
    requires
        sealed_file_spec(
            key,
            filename,
            file_unlock_date,
            contents,
            content_nonce,
            meta_nonce,
            filename,
            blob,
            envelope,
        ),
        0 <= i < es.len(),
        es[i].bytes@ == envelope,
        file_unlock_date <= server_time,
    ensures
        due_spec(readable(key, envelope_bytes(es)), server_time).contains(
            sealed_payload_spec(key, filename, file_unlock_date, contents, content_nonce),
        ),
        content_of(
            key,
            sealed_payload_spec(key, filename, file_unlock_date, contents, content_nonce),
            blob,
        ) == Some(contents),
{
    let p = sealed_payload_spec(key, filename, file_unlock_date, contents, content_nonce);
    let envs = envelope_bytes(es);
    assert(envs[i] == envelope);
    lemma_readable_contains(key, envs, i);
    lemma_time_gate(readable(key, envs), server_time, p);
}

/// Once a file is stored, the vault holds a file of its name: adding another
/// file under that name is refused.
pub proof fn lemma_stored_name_taken(
    key: Seq<u8>,
    filename: Seq<char>,
    file_unlock_date: u64,
    contents: Seq<u8>,
    content_nonce: Seq<u8>,
    meta_nonce: Seq<u8>,
    blob: Seq<u8>,
    envelope: Seq<u8>,
    envs: Seq<Seq<u8>>,
    i: int,
)
    requires
        sealed_file_spec(
            key,
            filename,
            file_unlock_date,
            contents,
            content_nonce,
            meta_nonce,
            filename,
            blob,
            envelope,
        ),
        0 <= i < envs.len(),
        envs[i] == envelope,
    ensures
        has_file(key, envs, filename),
{
    assert(envelope_payload(key, envs[i]) is Some);
}

} // verus!

use timelock_vault::engine::{
    add_file, add_file_with_name, get_status_with_password, record_server_time, unlock_vault,
    StoredEnvelope,
};
use timelock_vault::keys::{open_vault, seal_new_vault, verify_password};
use timelock_vault::model::{VaultError, VaultMetadata};
use timelock_vault::paths::meta_name;
use timelock_vault::records::{encode_envelope, open_content, parse_envelope, SealedFile};

const PASSWORD: &str = "hunter2";

fn small_vault(password: &str) -> VaultMetadata {
    seal_new_vault(password, &vec![7u8; 16], &vec![9u8; 32], &vec![3u8; 24], (8, 1, 1), 0, 100)
        .unwrap()
}

fn stored(file: &SealedFile) -> StoredEnvelope {
    StoredEnvelope { name: meta_name(&file.filename), bytes: file.envelope.clone() }
}

fn add_hello(meta: &VaultMetadata, date: u64) -> SealedFile {
    add_file(meta, PASSWORD, "/home/user/a.txt", &b"hello".to_vec(), date, &vec![]).unwrap()
}

#[test]
fn happy_path_unlock_releases_contents() {
    let mut meta = small_vault(PASSWORD);
    let file = add_hello(&meta, 1000);
    assert_eq!(file.filename, "a.txt");
    let entries = vec![stored(&file)];
    let key = open_vault(&meta, PASSWORD).unwrap();
    let plan = unlock_vault(&mut meta, &key, 2000, &entries).unwrap();
    assert_eq!(plan.due.len(), 1);
    assert_eq!(plan.due[0].filename, "a.txt");
    assert!(plan.warnings.is_empty());
    let contents = open_content(&key, &plan.due[0], &file.blob).unwrap();
    assert_eq!(contents, vec![0x68, 0x65, 0x6c, 0x6c, 0x6f]);
    assert_eq!(meta.last_verified_time, 2000);
}

#[test]
fn too_early_releases_nothing_but_records_time() {
    let mut meta = small_vault(PASSWORD);
    let file = add_hello(&meta, 3000);
    let entries = vec![stored(&file)];
    let key = open_vault(&meta, PASSWORD).unwrap();
    let plan = unlock_vault(&mut meta, &key, 2000, &entries).unwrap();
    assert!(plan.due.is_empty());
    assert!(plan.warnings.is_empty());
    assert_eq!(meta.last_verified_time, 2000);
}

#[test]
fn wrong_password_is_refused() {
    let meta = small_vault(PASSWORD);
    let file = add_hello(&meta, 1000);
    let entries = vec![stored(&file)];
    assert!(matches!(open_vault(&meta, "hunter3"), Err(VaultError::InvalidPassword)));
    assert!(matches!(verify_password(&meta, "hunter3"), Err(VaultError::InvalidPassword)));
    assert!(verify_password(&meta, PASSWORD).is_ok());
    assert!(matches!(
        get_status_with_password(&meta, "hunter3", &entries),
        Err(VaultError::InvalidPassword)
    ));
    assert!(matches!(
        add_file(&meta, "hunter3", "/tmp/b.txt", &b"x".to_vec(), 1, &entries),
        Err(VaultError::InvalidPassword)
    ));
    assert_eq!(meta.last_verified_time, 0);
}

#[test]
fn time_regression_is_refused() {
    let mut meta = small_vault(PASSWORD);
    let file = add_hello(&meta, 1000);
    let entries = vec![stored(&file)];
    assert!(record_server_time(&mut meta, 5000).is_ok());
    assert_eq!(meta.last_verified_time, 5000);
    let key = open_vault(&meta, PASSWORD).unwrap();
    let r = unlock_vault(&mut meta, &key, 4999, &entries);
    assert!(matches!(r, Err(VaultError::TimeRegression)));
    assert_eq!(meta.last_verified_time, 5000);
    assert!(matches!(record_server_time(&mut meta, 4999), Err(VaultError::TimeRegression)));
    assert_eq!(meta.last_verified_time, 5000);
}

#[test]
fn tampered_metadata_is_warned_and_withheld() {
    let mut meta = small_vault(PASSWORD);
    let file = add_hello(&meta, 1000);
    let mut outer = parse_envelope(&file.envelope).unwrap();
    let mut bytes = outer.encrypted_payload_b64.clone().into_bytes();
    bytes[0] = if bytes[0] == b'A' { b'B' } else { b'A' };
    outer.encrypted_payload_b64 = String::from_utf8(bytes).unwrap();
    let entries = vec![StoredEnvelope {
        name: meta_name("a.txt"),
        bytes: encode_envelope(&outer),
    }];
    let key = open_vault(&meta, PASSWORD).unwrap();
    let plan = unlock_vault(&mut meta, &key, 2000, &entries).unwrap();
    assert!(plan.due.is_empty());
    assert_eq!(plan.warnings.len(), 1);
    assert_eq!(plan.warnings[0].file, ".locked_a.txt.meta.json");
    assert!(plan.warnings[0].tampered);
}

#[test]
fn duplicate_name_is_refused() {
    let meta = small_vault(PASSWORD);
    let file = add_hello(&meta, 1000);
    let entries = vec![stored(&file)];
    let r = add_file_with_name(
        &meta,
        PASSWORD,
        "/home/user/other.bin",
        &b"other".to_vec(),
        5,
        Some("a.txt".to_string()),
        &entries,
    );
    match r {
        Err(e) => {
            assert!(matches!(&e, VaultError::FileExists(n) if n == "a.txt"));
            assert_eq!(e.describe(), "FILE_EXISTS:a.txt");
        }
        Ok(_) => panic!("duplicate accepted"),
    }
}

#[test]
fn status_lists_records_and_warns_of_unreadable_envelopes() {
    let meta = small_vault(PASSWORD);
    let file = add_hello(&meta, 1000);
    let entries = vec![
        stored(&file),
        StoredEnvelope { name: "junk.meta.json".to_string(), bytes: b"not json".to_vec() },
    ];
    let rep = get_status_with_password(&meta, PASSWORD, &entries).unwrap();
    assert_eq!(rep.records.len(), 1);
    assert_eq!(rep.records[0].filename, "a.txt");
    assert_eq!(rep.records[0].file_unlock_date, 1000);
    assert_eq!(rep.warnings.len(), 1);
    assert_eq!(rep.warnings[0].file, "junk.meta.json");
    assert!(!rep.warnings[0].tampered);
}

#[test]
fn time_gate_releases_exactly_the_due_files() {
    let mut meta = small_vault(PASSWORD);
    let early = add_file_with_name(&meta, PASSWORD, "/x", &b"1".to_vec(), 100, Some("e".to_string()), &vec![])
        .unwrap();
    let late = add_file_with_name(&meta, PASSWORD, "/y", &b"2".to_vec(), 200, Some("l".to_string()), &vec![stored(&early)])
        .unwrap();
    let entries = vec![stored(&early), stored(&late)];
    let key = open_vault(&meta, PASSWORD).unwrap();
    let plan = unlock_vault(&mut meta, &key, 150, &entries).unwrap();
    assert_eq!(plan.due.len(), 1);
    assert_eq!(plan.due[0].filename, "e");
    let plan = unlock_vault(&mut meta, &key, 200, &entries).unwrap();
    assert_eq!(plan.due.len(), 2);
    assert_eq!(plan.due[1].filename, "l");
    assert_eq!(open_content(&key, &plan.due[1], &late.blob).unwrap(), b"2".to_vec());
    assert_eq!(meta.last_verified_time, 200);
}

#[test]
fn nonces_are_fresh_for_each_seal() {
    let meta = small_vault(PASSWORD);
    let a = add_hello(&meta, 1000);
    let b = add_hello(&meta, 1000);
    assert_ne!(a.blob, b.blob);
    assert_ne!(a.envelope, b.envelope);
    assert_ne!(a.blob, b"hello".to_vec());
    let key = open_vault(&meta, PASSWORD).unwrap();
    let pa = timelock_vault::records::open_envelope(&key, &a.envelope).unwrap();
    let pb = timelock_vault::records::open_envelope(&key, &b.envelope).unwrap();
    assert_ne!(pa.nonce_b64, pb.nonce_b64);
}

#[test]
fn blob_opens_only_with_its_own_payload() {
    let meta = small_vault(PASSWORD);
    let a = add_hello(&meta, 1000);
    let b = add_hello(&meta, 1000);
    let key = open_vault(&meta, PASSWORD).unwrap();
    let pa = timelock_vault::records::open_envelope(&key, &a.envelope).unwrap();
    assert!(open_content(&key, &pa, &b.blob).is_none());
    assert_eq!(open_content(&key, &pa, &a.blob).unwrap(), b"hello".to_vec());
}

fn contains(hay: &[u8], needle: &[u8]) -> bool {
    hay.windows(needle.len()).any(|w| w == needle)
}

#[test]
fn file_key_never_stored() {
    let fek = vec![9u8; 32];
    let meta = seal_new_vault(PASSWORD, &vec![7u8; 16], &fek, &vec![3u8; 24], (8, 1, 1), 0, 100).unwrap();
    let file = add_hello(&meta, 1000);
    let fek_b64 = "CQkJCQkJCQkJCQkJCQkJCQkJCQkJCQkJCQkJCQkJCQk=";
    for text in [&meta.salt_b64, &meta.wrapped_fek_b64, &meta.wrap_nonce_b64] {
        assert!(!text.contains(fek_b64));
        assert!(!contains(text.as_bytes(), &fek));
    }
    assert!(!contains(&file.blob, &fek));
    assert!(!contains(&file.envelope, &fek));
    assert!(!contains(&file.envelope, fek_b64.as_bytes()));
}

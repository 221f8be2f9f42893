use timelock_vault::engine::{check_server_time, resolve_filename};
use timelock_vault::keys::seal_new_vault;
use timelock_vault::model::{default_argon_params, EncryptedFileMeta, VaultError};
use timelock_vault::oracle::{
    backoff_ms, endpoint_at, endpoint_count, filetime_to_unix, oracle_step, parse_time_response,
    OracleState, OracleStep, TimeEndpoint,
};
use timelock_vault::paths::{files_meta_dir, locked_name, meta_name, vault_meta_path};
use timelock_vault::records::{encode_envelope, parse_envelope, parse_payload};

#[test]
fn default_params_are_the_documented_ones() {
    assert_eq!(default_argon_params(), (131072, 4, 1));
}

#[test]
fn paths_join_with_one_separator() {
    assert_eq!(vault_meta_path("/v"), "/v/vault_metadata.json");
    assert_eq!(vault_meta_path("/v/"), "/v/vault_metadata.json");
    assert_eq!(vault_meta_path(""), "vault_metadata.json");
    assert_eq!(files_meta_dir("vault"), "vault/files_meta");
    assert_eq!(locked_name("a.txt"), ".locked_a.txt");
    assert_eq!(meta_name("a.txt"), ".locked_a.txt.meta.json");
}

#[test]
fn new_vault_header_is_base64_of_its_parts() {
    let m = seal_new_vault("pw", &vec![7u8; 16], &vec![9u8; 32], &vec![3u8; 24], (8, 1, 1), 42, 100)
        .unwrap();
    assert_eq!(m.version, 1);
    assert_eq!(m.salt_b64, "BwcHBwcHBwcHBwcHBwcHBw==");
    assert_eq!(m.wrap_nonce_b64, "AwMDAwMDAwMDAwMDAwMDAwMDAwMDAwMD");
    assert_eq!(m.wrapped_fek_b64.len(), 64);
    assert_eq!((m.argon_mem_kib, m.argon_iters, m.argon_parallelism), (8, 1, 1));
    assert_eq!(m.vault_unlock_date, 42);
    assert_eq!(m.creation_ts, 100);
    assert_eq!(m.last_verified_time, 0);
}

#[test]
fn refused_kdf_parameters_fail() {
    let r = seal_new_vault("pw", &vec![7u8; 16], &vec![9u8; 32], &vec![3u8; 24], (4, 1, 1), 0, 0);
    assert!(matches!(r, Err(VaultError::KdfFailure)));
    let r = seal_new_vault("pw", &vec![7u8; 16], &vec![9u8; 32], &vec![3u8; 24], (8, 0, 1), 0, 0);
    assert!(matches!(r, Err(VaultError::KdfFailure)));
}

#[test]
fn regression_guard() {
    assert!(check_server_time(0, 0).is_ok());
    assert!(check_server_time(0, 1).is_ok());
    assert!(check_server_time(5000, 5000).is_ok());
    assert!(check_server_time(5000, 6000).is_ok());
    assert!(matches!(check_server_time(5000, 4999), Err(VaultError::TimeRegression)));
}

#[test]
fn filename_resolution() {
    assert_eq!(resolve_filename("/tmp/x.txt", None).unwrap(), "x.txt");
    assert_eq!(resolve_filename("/tmp/dir/", None).unwrap(), "dir");
    assert_eq!(resolve_filename("/tmp/x.txt", Some("y".to_string())).unwrap(), "y");
    assert!(matches!(resolve_filename("/", None), Err(VaultError::BadFilename)));
    assert!(matches!(resolve_filename("/tmp/x", Some(String::new())), Err(VaultError::BadFilename)));
}

#[test]
fn envelope_round_trip() {
    let m = EncryptedFileMeta {
        encrypted_payload_b64: "cGF5bG9hZA==".to_string(),
        metadata_nonce_b64: "bm9uY2U=".to_string(),
    };
    let bytes = encode_envelope(&m);
    let back = parse_envelope(&bytes).unwrap();
    assert_eq!(back.encrypted_payload_b64, "cGF5bG9hZA==");
    assert_eq!(back.metadata_nonce_b64, "bm9uY2U=");
    assert!(parse_envelope(&b"{\"encrypted_payload_b64\":\"x\"}".to_vec()).is_none());
}

#[test]
fn payload_reads_all_four_members() {
    let json = b"{\"filename\":\"a.txt\",\"file_unlock_date\":1000,\"nonce_b64\":\"n\",\"ciphertext_b64\":\"c\"}".to_vec();
    let p = parse_payload(&json).unwrap();
    assert_eq!(p.filename, "a.txt");
    assert_eq!(p.file_unlock_date, 1000);
    assert_eq!(p.nonce_b64, "n");
    assert_eq!(p.ciphertext_b64, "c");
    assert!(parse_payload(&b"{\"filename\":\"a.txt\"}".to_vec()).is_none());
}

#[test]
fn error_descriptions() {
    assert_eq!(VaultError::FileExists("b.bin".to_string()).describe(), "FILE_EXISTS:b.bin");
    assert_eq!(VaultError::TimeRegression.describe(), "Public time regression detected");
}

#[test]
fn endpoints_in_order_of_preference() {
    assert_eq!(endpoint_count(), 4);
    assert_eq!(endpoint_at(0).url(), "https://worldtimeapi.org/api/timezone/Etc/UTC");
    assert_eq!(endpoint_at(1).url(), "http://worldclockapi.com/api/json/utc/now");
    assert_eq!(endpoint_at(2).url(), "https://timeapi.io/api/Time/current/zone?timeZone=UTC");
    assert_eq!(endpoint_at(3).url(), "https://worldtimeapi.org/api/ip");
    assert_eq!(endpoint_at(2).label(), "[Server 3]");
}

#[test]
fn backoff_doubles() {
    assert_eq!(backoff_ms(1), 500);
    assert_eq!(backoff_ms(2), 1000);
    assert_eq!(backoff_ms(3), 2000);
}

#[test]
fn filetime_conversion() {
    assert_eq!(filetime_to_unix(133_000_000_000_000_000), Some(1_655_526_400));
    assert_eq!(filetime_to_unix(116_444_736_000_000_000), Some(0));
    assert_eq!(filetime_to_unix(100), None);
    assert_eq!(filetime_to_unix(-5), None);
}

#[test]
fn responses_are_read_per_endpoint() {
    let unix = b"{\"unixtime\":1700000000}".to_vec();
    assert_eq!(parse_time_response(TimeEndpoint::WorldTimeApiUtc, &unix), Some(1_700_000_000));
    assert_eq!(parse_time_response(TimeEndpoint::WorldTimeApiIp, &unix), Some(1_700_000_000));
    assert_eq!(parse_time_response(TimeEndpoint::TimeApiIo, &unix), None);
    let dt = b"{\"dateTime\":\"2024-01-01T00:00:00Z\"}".to_vec();
    assert_eq!(parse_time_response(TimeEndpoint::TimeApiIo, &dt), Some(1_704_067_200));
    let wc = b"{\"currentDateTime\":\"2024-01-01T01:00:00+01:00\"}".to_vec();
    assert_eq!(parse_time_response(TimeEndpoint::WorldClockApi, &wc), Some(1_704_067_200));
    let ft = b"{\"currentDateTime\":\"2024-01-01T00:00Z\",\"currentFileTime\":133000000000000000}".to_vec();
    assert_eq!(parse_time_response(TimeEndpoint::WorldClockApi, &ft), Some(1_655_526_400));
    assert_eq!(parse_time_response(TimeEndpoint::WorldTimeApiUtc, &b"<html>".to_vec()), None);
    assert_eq!(parse_time_response(TimeEndpoint::WorldTimeApiUtc, &b"{\"unixtime\":-3}".to_vec()), None);
}

#[test]
fn oracle_retries_then_moves_on_then_gives_up() {
    let mut state = OracleState::start();
    let mut sleeps = Vec::new();
    let mut asked = Vec::new();
    loop {
        asked.push(state.current());
        match oracle_step(state, None) {
            OracleStep::Continue { state: next, sleep_ms } => {
                sleeps.push(sleep_ms);
                state = next;
            }
            OracleStep::Exhausted => break,
            OracleStep::Found { .. } => panic!("no answer was given"),
        }
    }
    assert_eq!(asked.len(), 12);
    assert_eq!(sleeps, vec![500, 1000, 0, 500, 1000, 0, 500, 1000, 0, 500, 1000]);
    assert_eq!(asked[3], TimeEndpoint::WorldClockApi);
}

#[test]
fn oracle_stops_at_first_answer() {
    let state = OracleState { endpoint: 1, attempt: 2 };
    match oracle_step(state, Some(2000)) {
        OracleStep::Found { time, endpoint } => {
            assert_eq!(time, 2000);
            assert_eq!(endpoint, TimeEndpoint::WorldClockApi);
        }
        _ => panic!("answer ignored"),
    }
}

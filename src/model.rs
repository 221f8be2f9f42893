//! The records a vault keeps, and the errors its operations report.

use vstd::prelude::*;

verus! {

/// Cleartext vault metadata, stored as `vault_metadata.json`.
pub struct VaultMetadata {
    pub version: u8,
    pub salt_b64: String,
    pub argon_mem_kib: u32,
    pub argon_iters: u32,
    pub argon_parallelism: u32,
    pub wrapped_fek_b64: String,
    pub wrap_nonce_b64: String,
    pub vault_unlock_date: u64,
    pub creation_ts: u64,
    pub last_verified_time: u64,
}

/// The outer record written to `files_meta/` for each stored file: the sealed
/// payload and the nonce it was sealed with, both in base64.
pub struct EncryptedFileMeta {
    pub encrypted_payload_b64: String,
    pub metadata_nonce_b64: String,
}

/// What an envelope holds once opened.
#[derive(Clone)]
pub struct FileMetaPayload {
    pub filename: String,
    pub file_unlock_date: u64,
    pub nonce_b64: String,
    pub ciphertext_b64: String,
}

/// The plain-value view of a payload.
pub struct PayloadView {
    pub filename: Seq<char>,
    pub file_unlock_date: u64,
    pub nonce_b64: Seq<char>,
    pub ciphertext_b64: Seq<char>,
}

impl View for FileMetaPayload {
    type V = PayloadView;

    open spec fn view(&self) -> PayloadView {
        PayloadView {
            filename: self.filename@,
            file_unlock_date: self.file_unlock_date,
            nonce_b64: self.nonce_b64@,
            ciphertext_b64: self.ciphertext_b64@,
        }
    }
}

/// Every way a vault operation can fail.
#[derive(Debug)]
pub enum VaultError {
    /// The vault metadata file is absent.
    VaultMissing,
    /// The wrapped file key did not open under the password's key.
    InvalidPassword,
    /// A file of this name is already in the vault.
    FileExists(String),
    /// The display filename is empty or cannot be resolved.
    BadFilename,
    /// No time server gave a usable answer.
    TimeUnavailable,
    /// A time server reported a time before the highest one seen.
    TimeRegression,
    /// A stored record could not be read as the format demands.
    CorruptMetadata,
    /// A sealed record failed authentication.
    TamperedMetadata,
    /// The system failed the operation: a file could not be read or written,
    /// the random generator failed, or the contents are too long to seal.
    IoFailure,
    /// The key derivation parameters were refused.
    KdfFailure,
}

impl VaultError {
    /// The one-line description callers see; a duplicate name reads
    /// `FILE_EXISTS:<filename>` so that callers can match on it.
    pub open spec fn describe_spec(&self) -> Seq<char> {
        match self {
            VaultError::VaultMissing => "Vault metadata not found"@,
            VaultError::InvalidPassword => "Invalid password. Please check your password and try again."@,
            VaultError::FileExists(name) => "FILE_EXISTS:"@ + name@,
            VaultError::BadFilename => "bad filename"@,
            VaultError::TimeUnavailable => "Date and time verification failed"@,
            VaultError::TimeRegression => "Public time regression detected"@,
            VaultError::CorruptMetadata => "Invalid metadata format"@,
            VaultError::TamperedMetadata => "Metadata decryption failed - possible tampering detected"@,
            VaultError::IoFailure => "File system operation failed"@,
            VaultError::KdfFailure => "Invalid key derivation parameters"@,
        }
    }

    pub fn describe(&self) -> (r: String)
        ensures
            r@ == self.describe_spec(),
    {
        match self {
            VaultError::VaultMissing => String::from_str("Vault metadata not found"),
            VaultError::InvalidPassword => String::from_str(
                "Invalid password. Please check your password and try again.",
            ),
            VaultError::FileExists(name) => String::from_str("FILE_EXISTS:").concat(name.as_str()),
            VaultError::BadFilename => String::from_str("bad filename"),
            VaultError::TimeUnavailable => String::from_str("Date and time verification failed"),
            VaultError::TimeRegression => String::from_str("Public time regression detected"),
            VaultError::CorruptMetadata => String::from_str("Invalid metadata format"),
            VaultError::TamperedMetadata => String::from_str(
                "Metadata decryption failed - possible tampering detected",
            ),
            VaultError::IoFailure => String::from_str("File system operation failed"),
            VaultError::KdfFailure => String::from_str("Invalid key derivation parameters"),
        }
    }
}

/// Argon2id parameters a new vault is created with:
/// memory in KiB, iterations, parallelism.
pub open spec fn default_params_spec() -> (u32, u32, u32) {
    (131072, 4, 1)
}

pub fn default_argon_params() -> (r: (u32, u32, u32))
    ensures
        r == default_params_spec(),
{
    (128 * 1024, 4, 1)
}

} // verus!

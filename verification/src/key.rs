//! The installation fingerprint key and random identifiers: what a key file
//! must hold, and what to do with each outcome of reading or publishing it.

use vstd::prelude::*;
use vstd::string::StringExecFns;
use crate::encoding::{base64_url_encode, base64_url_no_pad};
use crate::types::OpenError;

verus! {

/// The length of the installation key.
pub const KEY_BYTES: usize = 32;

/// Draws `count` bytes from the operating system's random source with
/// `rand::rngs::OsRng` (`TryRngCore::try_fill_bytes`).
///
/// The bytes depend on chance; the contract states only their number, and
/// that `None` stands for the source's error.
#[verifier::external_body]
fn os_random_bytes(count: usize) -> (bytes: Option<Vec<u8>>)
    ensures
        bytes is Some ==> bytes.unwrap()@.len() == count,
{
    let mut buffer = vec![0u8; count];
    rand::TryRngCore::try_fill_bytes(&mut rand::rngs::OsRng, &mut buffer).ok()?;
    Some(buffer)
}

/// `count` random bytes, or the content-free error when the source fails.
pub fn random_bytes(count: usize) -> (bytes: Result<Vec<u8>, OpenError>)
    ensures
        bytes is Ok ==> bytes.unwrap()@.len() == count,
        bytes is Err ==> bytes->Err_0 == OpenError,
{
    match os_random_bytes(count) {
        Option::Some(bytes) => Ok(bytes),
        Option::None => Err(OpenError::unavailable()),
    }
}

/// Evidence that the operating system's random source failed.  Only a draw
/// from the source that failed produces one: its field is private to this
/// module.
#[derive(Debug)]
pub struct RandomSourceFailure {
    failed: (),
}

/// Draws a fresh identifier: sixteen random bytes in unpadded URL-safe
/// Base64, or the evidence that the random source failed.
pub fn draw_random_id() -> (id: Result<String, RandomSourceFailure>)
    ensures
        id is Ok ==> exists|raw: Seq<u8>| raw.len() == 16 && id.unwrap()@ == base64_url_no_pad(raw),
{
    match os_random_bytes(16) {
        Option::Some(bytes) => Ok(base64_url_encode(bytes.as_slice())),
        Option::None => Err(RandomSourceFailure { failed: () }),
    }
}

/// A fresh identifier: sixteen random bytes in unpadded URL-safe Base64.
pub fn random_id() -> (id: Result<String, OpenError>)
    ensures
        id is Ok ==> exists|raw: Seq<u8>| raw.len() == 16 && id.unwrap()@ == base64_url_no_pad(raw),
        id is Err ==> id->Err_0 == OpenError,
{
    match draw_random_id() {
        Ok(id) => Ok(id),
        Err(_) => Err(OpenError::unavailable()),
    }
}

/// Why a key file was not accepted.
#[derive(Clone, Copy, Debug, PartialEq, Eq, Structural)]
pub enum KeyError {
    /// The file does not hold exactly `KEY_BYTES` bytes.
    InvalidLength,
}

/// The key that a key file's contents hold: exactly `KEY_BYTES` bytes, kept
/// as they are; any other length is refused (and the file is never replaced).
pub fn key_from_file_bytes(contents: Vec<u8>) -> (key: Result<Vec<u8>, KeyError>)
    ensures
        contents@.len() == KEY_BYTES ==> key == Ok::<Vec<u8>, KeyError>(contents),
        contents@.len() != KEY_BYTES ==> key == Err::<Vec<u8>, KeyError>(KeyError::InvalidLength),
{
    if contents.len() == KEY_BYTES {
        Ok(contents)
    } else {
        Err(KeyError::InvalidLength)
    }
}

/// What reading the key file produced.
pub enum KeyRead {
    /// The file's contents.
    Contents(Vec<u8>),
    /// There is no key file yet.
    NotFound,
    /// Reading failed for another reason.
    Failed,
}

/// The next step after reading the key file.
pub enum KeyAction {
    /// Use this key (after making sure the file is private).
    UseExisting(Vec<u8>),
    /// Create and publish a new key.
    CreateNew,
    /// Give up: collection is unavailable.
    Fail,
}

/// Chooses what to do with the outcome of reading the key file: a well-formed
/// key is reused, a missing file leads to a new key, and anything else stops
/// collection without touching the file.
pub fn key_action(read: KeyRead) -> (action: KeyAction)
    ensures
        match read {
            KeyRead::Contents(bytes) => if bytes@.len() == KEY_BYTES {
                action matches KeyAction::UseExisting(key) && key@ == bytes@
            } else {
                action is Fail
            },
            KeyRead::NotFound => action is CreateNew,
            KeyRead::Failed => action is Fail,
        },
{
    match read {
        KeyRead::Contents(bytes) => match key_from_file_bytes(bytes) {
            Ok(key) => KeyAction::UseExisting(key),
            Err(_) => KeyAction::Fail,
        },
        KeyRead::NotFound => KeyAction::CreateNew,
        KeyRead::Failed => KeyAction::Fail,
    }
}

/// What linking a newly written temporary key file into place produced.
#[derive(Clone, Copy, Debug, PartialEq, Eq, Structural)]
pub enum PublishResult {
    /// The new key is now the installation key.
    Published,
    /// Another process published a key first.
    AlreadyExists,
    /// Writing or linking failed.
    Failed,
}

/// The next step after publishing a new key.
#[derive(Clone, Copy, Debug, PartialEq, Eq, Structural)]
pub enum PublishAction {
    /// Remove the temporary file and use the new key.
    UseNewKey,
    /// Remove the temporary file and read the key that won the race.
    ReadWinningKey,
    /// Remove the temporary file and give up.
    Fail,
}

/// Chooses what to do after publishing: a race lost to a concurrent creator
/// falls back to that creator's key, so one installation keeps one key.
pub fn publish_action(result: PublishResult) -> (action: PublishAction)
    ensures
        result == PublishResult::Published ==> action == PublishAction::UseNewKey,
        result == PublishResult::AlreadyExists ==> action == PublishAction::ReadWinningKey,
        result == PublishResult::Failed ==> action == PublishAction::Fail,
{
    match result {
        PublishResult::Published => PublishAction::UseNewKey,
        PublishResult::AlreadyExists => PublishAction::ReadWinningKey,
        PublishResult::Failed => PublishAction::Fail,
    }
}

/// Whether a key file's permission bits must be reset to owner read/write only.
pub fn permissions_need_repair(mode: u32) -> (repair: bool)
    ensures
        repair == ((mode & 0o777u32) != 0o600u32),
{
    (mode & 0o777u32) != 0o600u32
}

/// The key file's name inside the diagnostic directory.
pub fn key_file_name() -> (name: &'static str)
    ensures
        name@ == ".fingerprint-key"@,
{
    ".fingerprint-key"
}

/// The name of the temporary file a new key is written to before it is linked
/// into place: a dot, the key file's name, a dot, `temporary_id`, and `.tmp`.
pub fn temporary_key_file_name(temporary_id: &str) -> (name: String)
    ensures
        name@ == "."@ + ".fingerprint-key"@ + "."@ + temporary_id@ + ".tmp"@,
{
    let mut name = String::from_str(".");
    name.append(".fingerprint-key");
    name.append(".");
    name.append(temporary_id);
    name.append(".tmp");
    name
}

} // verus!

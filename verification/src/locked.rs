//! The files behind locks, for callers that share them between threads.
//!
//! A lock lets one caller at a time work on a file, so that the steps of
//! one operation are never mixed with those of another. What a file holds
//! when a caller gets to it depends on the callers before it; an operation
//! here answers for what it returns and for what it is handed by the
//! caller, and the file types answer for every single step.

use crate::settings::default_settings;
use crate::settings::healed;
use crate::settings::settings_json;
use crate::settings::trimmed;
use crate::settings::Settings;
use crate::settings::SettingsError;
use crate::settings::SettingsFile;
use crate::settings::SettingsView;
use crate::storage::admitted;
use crate::storage::AppendOutcome;
use crate::storage::DataFile;
use crate::storage::LastLine;
use crate::storage::StorageError;
use crate::storage::StorageSpaceInfo;
use std::sync::Mutex;
use std::sync::MutexGuard;
use vstd::prelude::*;
use vstd::utf8::decode_utf8;

verus! {

/// The lock of the standard library.
#[verifier::external_type_specification]
#[verifier::external_body]
#[verifier::reject_recursive_types(T)]
pub struct ExMutex<T: ?Sized>(Mutex<T>);

/// The hold on a lock of the standard library.
#[verifier::external_type_specification]
#[verifier::external_body]
#[verifier::reject_recursive_types(T)]
pub struct ExMutexGuard<'a, T: ?Sized + 'a>(MutexGuard<'a, T>);

/// A lock that could not be taken: a thread failed while it held the lock.
#[derive(Debug)]
pub struct LockError {
    /// Where the lock was asked for.
    pub prefix: String,
    /// What the lock said.
    pub cause: String,
}

/// Calls `Mutex::new`, which makes a lock around `value`.
#[verifier::external_body]
fn new_mutex<T>(value: T) -> Mutex<T> {
    Mutex::new(value)
}

/// Calls `Mutex::lock`, which waits for the lock and then hands out the
/// hold on it, or an error where the lock is poisoned; the error comes back
/// as its text. Which of the two happens depends on the other threads.
#[verifier::external_body]
fn lock_mutex<'a, T>(m: &'a Mutex<T>) -> Result<MutexGuard<'a, T>, String> {
    m.lock().map_err(|e| e.to_string())
}

/// Calls `DerefMut::deref_mut` on the hold of a lock, which gives what the
/// lock protects. What that holds depends on the threads that had the lock
/// before.
#[verifier::external_body]
fn guarded<'b, 'a, T>(guard: &'b mut MutexGuard<'a, T>) -> &'b mut T {
    &mut *guard
}

/// What a caller gets for the answer `outcome` of a lock that it asked for
/// at the place `err_prefix`: the hold on the lock as it is, or an error
/// that names the place and carries the words of the lock.
pub fn lock_outcome<'a, T>(outcome: Result<MutexGuard<'a, T>, String>, err_prefix: &str) -> (r: Result<
    MutexGuard<'a, T>,
    LockError,
>)
    ensures
        match outcome {
            Ok(guard) => r == Ok::<MutexGuard<'a, T>, LockError>(guard),
            Err(cause) => r matches Err(e) && e.prefix@ == err_prefix@ && e.cause@ == cause@,
        },
{
    match outcome {
        Ok(guard) => Ok(guard),
        Err(cause) => Err(LockError { prefix: err_prefix.to_owned(), cause }),
    }
}

/// Takes the lock `v`, waiting for it where another thread holds it.
/// Whether the lock can be had is for the lock to say: it refuses where a
/// thread failed while holding it. The error then names `err_prefix`, the
/// place that asked.
pub fn anyhow_lock<'a, T>(v: &'a Mutex<T>, err_prefix: &'static str) -> (r: Result<
    MutexGuard<'a, T>,
    LockError,
>)
    ensures
        r matches Err(e) ==> e.prefix@ == err_prefix@,
{
    lock_outcome(lock_mutex(v), err_prefix)
}

/// The measurement log behind a lock.
pub struct LockedDataFile {
    locker: Mutex<DataFile>,
}

impl LockedDataFile {
    /// A lock around a log that has never been written.
    pub fn new() -> Self {
        LockedDataFile { locker: new_mutex(DataFile::new()) }
    }

    /// A lock around the log `file`.
    pub fn with_file(file: DataFile) -> Self {
        LockedDataFile { locker: new_mutex(file) }
    }

    /// Takes the lock of the log.
    pub fn lock(&self) -> (r: Result<MutexGuard<'_, DataFile>, LockError>)
        ensures
            r matches Err(e) ==> e.prefix@ == "LockedDataFile lock"@,
    {
        anyhow_lock(&self.locker, "LockedDataFile lock")
    }

    /// Hands the row `d` to the log, under its lock. Header and row are
    /// written in one hold of the lock, so no other row gets between them.
    /// Whether the row is admitted depends on `info` alone; `last_line`
    /// becomes the row where it is. Where the lock cannot be taken nothing
    /// is written.
    pub fn append_data(
        &self,
        info: Result<StorageSpaceInfo, StorageError>,
        d: &str,
        last_line: &mut LastLine,
    ) -> (r: Result<AppendOutcome, LockError>)
        ensures
            match r {
                Ok(outcome) => {
                    &&& outcome == match admitted(info) {
                        Ok(_) => AppendOutcome::Appended,
                        Err(e) => AppendOutcome::Skipped { reason: e },
                    }
                    &&& final(last_line)@ == if admitted(info) is Ok {
                        d@
                    } else {
                        old(last_line)@
                    }
                },
                Err(e) => e.prefix@ == "LockedDataFile lock"@ && final(last_line)@ == old(
                    last_line,
                )@,
            },
    {
        match self.lock() {
            Ok(mut guard) => {
                let file = guarded(&mut guard);
                Ok(file.append_data(info, d, last_line))
            },
            Err(e) => Err(e),
        }
    }

    /// Empties the log, under its lock.
    pub fn clear_data(&self) -> (r: Result<(), LockError>)
        ensures
            r matches Err(e) ==> e.prefix@ == "LockedDataFile lock"@,
    {
        match self.lock() {
            Ok(mut guard) => {
                let file = guarded(&mut guard);
                file.clear_data();
                Ok(())
            },
            Err(e) => Err(e),
        }
    }

    /// The whole log as it stands, read under its lock.
    pub fn read_all(&self) -> (r: Result<Vec<u8>, LockError>)
        ensures
            r matches Err(e) ==> e.prefix@ == "LockedDataFile lock"@,
    {
        match self.lock() {
            Ok(mut guard) => {
                let file = guarded(&mut guard);
                Ok(file.read_all())
            },
            Err(e) => Err(e),
        }
    }
}

/// The record with the white space at both ends of every field removed.
pub open spec fn trimmed_view(s: SettingsView) -> SettingsView {
    SettingsView { wifi_pass: trimmed(s.wifi_pass), wifi_ssid: trimmed(s.wifi_ssid) }
}

/// The record that a read gives where the parser answered `out`: the record
/// found, or else the default record.
pub open spec fn record_read(out: Option<Settings>) -> SettingsView {
    match out {
        Some(s) => s@,
        None => default_settings(),
    }
}

/// Why a record could not be written to the settings file behind its lock.
#[derive(Debug)]
pub enum LockedSettingsError {
    /// The lock could not be taken.
    Lock(LockError),
    /// The file refused the record.
    File(SettingsError),
}

/// The settings file behind a lock.
pub struct LockedSettingsFile {
    locker: Mutex<SettingsFile>,
}

impl LockedSettingsFile {
    /// A lock around a settings file that is not there yet.
    pub fn new() -> Self {
        LockedSettingsFile { locker: new_mutex(SettingsFile::new()) }
    }

    /// A lock around the settings file `file`.
    pub fn with_file(file: SettingsFile) -> Self {
        LockedSettingsFile { locker: new_mutex(file) }
    }

    /// Takes the lock of the settings file.
    pub fn lock(&self) -> (r: Result<MutexGuard<'_, SettingsFile>, LockError>)
        ensures
            r matches Err(e) ==> e.prefix@ == "LockedSettingsFile lock"@,
    {
        anyhow_lock(&self.locker, "LockedSettingsFile lock")
    }

    /// Overwrites the file with the record `s`, its fields trimmed, under
    /// the lock of the file. Where the lock can be had, the record is
    /// written if and only if its trimmed fields have a JSON form; otherwise
    /// the file refuses and stays as it was.
    pub fn set(&self, s: &Settings) -> (r: Result<(), LockedSettingsError>)
        ensures
            match r {
                Ok(_) => settings_json(trimmed_view(s@)) is Some,
                Err(LockedSettingsError::File(e)) => e == SettingsError::Encode && settings_json(
                    trimmed_view(s@),
                ) is None,
                Err(LockedSettingsError::Lock(e)) => e.prefix@ == "LockedSettingsFile lock"@,
            },
    {
        match self.lock() {
            Ok(mut guard) => {
                let file = guarded(&mut guard);
                match file.set(s) {
                    Ok(_) => Ok(()),
                    Err(e) => Err(LockedSettingsError::File(e)),
                }
            },
            Err(e) => Err(LockedSettingsError::Lock(e)),
        }
    }

    /// Reads the record, under the lock of the file. `parse` is the record
    /// parser: it answers with the record that a text holds, or with `None`.
    /// Where the lock can be had, the parser is shown the healed text of
    /// what the file held then; the record that it finds comes back, or
    /// else the default record, with which the file is then overwritten.
    pub fn get<F: Fn(&str) -> Option<Settings>>(&self, parse: F) -> (r: Result<Settings, LockError>)
        requires
            forall|text: &str| parse.requires((text,)),
        ensures
            match r {
                Ok(s) => exists|found: Option<Seq<u8>>, text: &str, out: Option<Settings>|
                    #![trigger parse.ensures((text,), out), healed(found)]
                    {
                        &&& text@ == decode_utf8(healed(found))
                        &&& parse.ensures((text,), out)
                        &&& s@ == record_read(out)
                    },
                Err(e) => e.prefix@ == "LockedSettingsFile lock"@,
            },
    {
        match self.lock() {
            Ok(mut guard) => {
                let file = guarded(&mut guard);
                let ghost found = file@;
                let text = file.get_str();
                let shown = text.as_str();
                let parsed = parse(shown);
                let s = file.get(parsed);
                assert(shown@ == decode_utf8(healed(found)));
                assert(parse.ensures((shown,), parsed));
                assert(s@ == record_read(parsed));
                Ok(s)
            },
            Err(e) => Err(e),
        }
    }
}

} // verus!

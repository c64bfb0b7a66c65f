//! Auto-start on Windows login: the `EasyHDR` value under the current user's
//! `Run` registry key.
//!
//! The registry is read and written by the caller; this module says what the
//! answers mean and which command the value holds.

use crate::error::EasyHdrError;
use crate::text::concat;
use vstd::prelude::*;

verus! {

/// Registry key holding the programs started at login.
pub const RUN_KEY_PATH: &'static str = "Software\\Microsoft\\Windows\\CurrentVersion\\Run";

/// Name of the application's value under the `Run` key.
pub const APP_NAME: &'static str = "EasyHDR";

/// What the registry answered to an operation on the application's value.
#[derive(Debug)]
pub enum RegistryOutcome {
    /// The operation succeeded
    Done,
    /// The value does not exist
    NotFound,
    /// The operation failed with this message
    Failed(String),
}

/// Auto-start manager
pub struct AutoStartManager;

/// A configuration error with the message.
pub open spec fn config_failure(e: EasyHdrError, text: Seq<char>) -> bool {
    e is ConfigError && e->ConfigError_0@ == text
}

/// A result meets an answer: the same value on success, else a configuration
/// error with the answer's message.
pub open spec fn meets<T>(r: Result<T, EasyHdrError>, answer: Result<T, Seq<char>>) -> bool {
    match answer {
        Ok(v) => r == Ok::<T, EasyHdrError>(v),
        Err(m) => r is Err && config_failure(r->Err_0, m),
    }
}

/// What the auto-start query answers, from the opening of the `Run` key and
/// the reading of the value: on when the value exists, off when it does not.
pub open spec fn enabled_answer(open: Result<(), String>, read: RegistryOutcome) -> Result<bool, Seq<char>> {
    match open {
        Err(m) => Err("Failed to access Windows auto-start registry: "@ + m@),
        Ok(()) => match read {
            RegistryOutcome::Done => Ok(true),
            RegistryOutcome::NotFound => Ok(false),
            RegistryOutcome::Failed(m) => Err("Failed to check auto-start status: "@ + m@),
        },
    }
}

/// What enabling auto-start answers, from the executable path lookup, the
/// opening of the `Run` key for writing and the writing of the value.
pub open spec fn enable_answer(
    exe_path: Result<String, String>,
    open: Result<(), String>,
    write: Result<(), String>,
) -> Result<(), Seq<char>> {
    match (exe_path, open, write) {
        (Err(m), _, _) => Err("Failed to determine application location: "@ + m@),
        (Ok(_), Err(m), _) => Err(
            "Failed to access Windows auto-start registry. Please check your permissions: "@ + m@,
        ),
        (Ok(_), Ok(()), Err(m)) => Err("Failed to enable auto-start. Please check your permissions: "@ + m@),
        (Ok(_), Ok(()), Ok(())) => Ok(()),
    }
}

/// What disabling auto-start answers, from the opening of the `Run` key for
/// writing and the deleting of the value; a value that does not exist is
/// already disabled.
pub open spec fn disable_answer(open: Result<(), String>, delete: RegistryOutcome) -> Result<(), Seq<char>> {
    match open {
        Err(m) => Err(
            "Failed to access Windows auto-start registry. Please check your permissions: "@ + m@,
        ),
        Ok(()) => match delete {
            RegistryOutcome::Failed(m) => Err(
                "Failed to disable auto-start. Please check your permissions: "@ + m@,
            ),
            _ => Ok(()),
        },
    }
}

/// What the registry reports when the application's value is read or deleted:
/// `Done` when it exists, `NotFound` when it does not.
pub open spec fn registry_report(value: Option<Seq<char>>) -> RegistryOutcome {
    match value {
        Some(_) => RegistryOutcome::Done,
        None => RegistryOutcome::NotFound,
    }
}

/// The application's value after a delete: gone unless the delete failed.
pub open spec fn value_after_delete(value: Option<Seq<char>>, delete: RegistryOutcome) -> Option<Seq<char>> {
    match delete {
        RegistryOutcome::Failed(_) => value,
        _ => None,
    }
}

/// The application's value after a write of `command`: set unless the write failed.
pub open spec fn value_after_write(
    value: Option<Seq<char>>,
    write: Result<(), String>,
    command: Seq<char>,
) -> Option<Seq<char>> {
    match write {
        Ok(()) => Some(command),
        Err(_) => value,
    }
}

impl AutoStartManager {
    /// The command stored in the registry: the executable path in double
    /// quotes, so that paths with spaces are read as one.
    pub fn autostart_command(exe_path: &str) -> (command: String)
        ensures
            command@ == seq!['"'] + exe_path@ + seq!['"'],
    {
        let quoted = concat("\"", exe_path);
        let command = concat(quoted.as_str(), "\"");
        proof {
            reveal_strlit("\"");
        }
        command
    }

    /// Whether auto-start is enabled, from the result of opening the `Run`
    /// key and the outcome of reading the value: enabled when the value
    /// exists, disabled when it does not.
    pub fn is_enabled(open: Result<(), String>, read: RegistryOutcome) -> (r: Result<bool, EasyHdrError>)
        ensures
            meets(r, enabled_answer(open, read)),
    {
        match open {
            Err(m) => Err(
                EasyHdrError::ConfigError(
                    concat("Failed to access Windows auto-start registry: ", m.as_str()),
                ),
            ),
            Ok(()) => match read {
                RegistryOutcome::Done => Ok(true),
                RegistryOutcome::NotFound => Ok(false),
                RegistryOutcome::Failed(m) => Err(
                    EasyHdrError::ConfigError(concat("Failed to check auto-start status: ", m.as_str())),
                ),
            },
        }
    }

    /// The result of enabling auto-start, from the executable path lookup,
    /// the opening of the `Run` key for writing and the writing of the value
    /// (each step runs only after the previous one succeeded).
    pub fn enable(
        exe_path: Result<String, String>,
        open: Result<(), String>,
        write: Result<(), String>,
    ) -> (r: Result<(), EasyHdrError>)
        ensures
            meets(r, enable_answer(exe_path, open, write)),
    {
        match exe_path {
            Err(m) => {
                return Err(
                    EasyHdrError::ConfigError(
                        concat("Failed to determine application location: ", m.as_str()),
                    ),
                );
            },
            Ok(_) => {},
        }
        match open {
            Err(m) => {
                return Err(
                    EasyHdrError::ConfigError(
                        concat(
                            "Failed to access Windows auto-start registry. Please check your permissions: ",
                            m.as_str(),
                        ),
                    ),
                );
            },
            Ok(()) => {},
        }
        match write {
            Err(m) => Err(
                EasyHdrError::ConfigError(
                    concat("Failed to enable auto-start. Please check your permissions: ", m.as_str()),
                ),
            ),
            Ok(()) => Ok(()),
        }
    }

    /// The result of disabling auto-start, from the opening of the `Run` key
    /// for writing and the outcome of deleting the value. A value that does
    /// not exist is already disabled.
    pub fn disable(open: Result<(), String>, delete: RegistryOutcome) -> (r: Result<(), EasyHdrError>)
        ensures
            meets(r, disable_answer(open, delete)),
    {
        match open {
            Err(m) => Err(
                EasyHdrError::ConfigError(
                    concat(
                        "Failed to access Windows auto-start registry. Please check your permissions: ",
                        m.as_str(),
                    ),
                ),
            ),
            Ok(()) => match delete {
                RegistryOutcome::Failed(m) => Err(
                    EasyHdrError::ConfigError(
                        concat("Failed to disable auto-start. Please check your permissions: ", m.as_str()),
                    ),
                ),
                _ => Ok(()),
            },
        }
    }
}

/// After auto-start was disabled, a query on the `Run` key answers that it is
/// off, and disabling again succeeds: whatever the value was, a delete that
/// succeeded (or found no value) leaves no value behind. `delete` is what the
/// registry reported for the delete: a failure, or what the value's presence
/// gives.
pub proof fn lemma_disabled_after_disable(
    value: Option<Seq<char>>,
    open: Result<(), String>,
    delete: RegistryOutcome,
)
    requires
        delete is Failed || delete == registry_report(value),
        disable_answer(open, delete) is Ok,
    ensures
        value_after_delete(value, delete) is None,
        enabled_answer(Ok(()), registry_report(value_after_delete(value, delete)))
            == Ok::<bool, Seq<char>>(false),
        disable_answer(Ok(()), registry_report(value_after_delete(value, delete))) is Ok,
{
}

/// After auto-start was enabled, a query on the `Run` key answers that it is
/// on, and the value holds the command that was written.
pub proof fn lemma_enabled_after_enable(
    value: Option<Seq<char>>,
    exe_path: Result<String, String>,
    open: Result<(), String>,
    write: Result<(), String>,
    command: Seq<char>,
)
    requires
        enable_answer(exe_path, open, write) is Ok,
    ensures
        value_after_write(value, write, command) == Some(command),
        enabled_answer(Ok(()), registry_report(value_after_write(value, write, command)))
            == Ok::<bool, Seq<char>>(true),
{
}

} // verus!

//! Registration under the user's `Run` registry key: reading the outcome of
//! the registry calls and the messages for their failures.
use vstd::prelude::*;
use crate::text::{decimal, push_decimal};

verus! {

/// The Win32 status of a call that succeeded (`ERROR_SUCCESS`).
pub const ERROR_SUCCESS: u32 = 0;

/// The Win32 status of a value that does not exist (`ERROR_FILE_NOT_FOUND`).
pub const ERROR_FILE_NOT_FOUND: u32 = 2;

/// Whether the program is registered to start with Windows, from the status
/// of opening the `Run` key, the status of querying the program's value and
/// the size of that value's data.
pub fn startup_enabled_from(open_status: u32, query_status: u32, data_len: u32) -> (enabled:
    bool)
    ensures
        enabled == (open_status == ERROR_SUCCESS && query_status == ERROR_SUCCESS && data_len
            > 0),
{
    if open_status != ERROR_SUCCESS {
        return false;
    }
    query_status == ERROR_SUCCESS && data_len > 0
}

/// The command stored under the `Run` key: the executable's path in double
/// quotes.
pub fn startup_command(exe_path: &str) -> (cmd: String)
    ensures
        cmd@ == "\""@ + exe_path@ + "\""@,
{
    let mut cmd = String::from_str("\"");
    cmd.append(exe_path);
    cmd.append("\"");
    cmd
}

/// The error given when the `Run` key cannot be opened with status `status`.
pub fn open_failure_message(status: u32) -> (m: String)
    ensures
        m@ == "Failed to open registry key: error code "@ + decimal(status as nat),
{
    let mut m = String::from_str("Failed to open registry key: error code ");
    push_decimal(&mut m, status);
    m
}

/// The outcome of writing (`enable`) or deleting the program's value, from
/// the status of that call: success, or a missing value when deleting, is
/// `Ok`; any other status is an error that names it.
pub fn registry_write_outcome(enable: bool, status: u32) -> (r: Result<(), String>)
    ensures
        r is Ok <==> (status == ERROR_SUCCESS || (!enable && status == ERROR_FILE_NOT_FOUND)),
        r is Err ==> r->Err_0@ == "Registry operation failed with code "@ + decimal(status as nat),
{
    if status == ERROR_SUCCESS || (!enable && status == ERROR_FILE_NOT_FOUND) {
        Ok(())
    } else {
        let mut m = String::from_str("Registry operation failed with code ");
        push_decimal(&mut m, status);
        Err(m)
    }
}

} // verus!

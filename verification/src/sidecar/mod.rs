//! Naming and reporting for the embedded helper binary.

use vstd::prelude::*;

use crate::text::{joined, owned};

verus! {

/// The name under which a helper binary is embedded: with ".exe" on Windows.
pub fn embedded_binary_name(bin_name: &str, windows: bool) -> (r: String)
    ensures
        windows ==> r@ == bin_name@ + ".exe"@,
        !windows ==> r@ == bin_name@,
{
    if windows {
        joined(bin_name, ".exe")
    } else {
        owned(bin_name)
    }
}

/// The error text when no binary is embedded under a name.
pub fn missing_binary_message(embedded_name: &str) -> (r: String)
    ensures
        r@ == "Embedded binary '"@ + embedded_name@ + "' not found"@,
{
    let mut s = owned("Embedded binary '");
    s.append(embedded_name);
    s.append("' not found");
    s
}

/// A line of the helper's output as it is echoed: "[name] line".
pub fn output_line(bin_name: &str, line: &str) -> (r: String)
    ensures
        r@ == "["@ + bin_name@ + "] "@ + line@,
{
    let mut s = owned("[");
    s.append(bin_name);
    s.append("] ");
    s.append(line);
    s
}

/// The report on the helper's exit, given whether it succeeded and the text
/// of its exit status.
pub fn exit_report(bin_name: &str, success: bool, status: &str) -> (r: String)
    ensures
        success ==> r@ == "Sidecar '"@ + bin_name@ + "' exited successfully"@,
        !success ==> r@ == "Sidecar '"@ + bin_name@ + "' exited with status: "@ + status@,
{
    let mut s = owned("Sidecar '");
    s.append(bin_name);
    if success {
        s.append("' exited successfully");
    } else {
        s.append("' exited with status: ");
        s.append(status);
    }
    s
}

} // verus!

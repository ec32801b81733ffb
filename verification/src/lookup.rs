//! The `find-binary-in-path` command: a pure lookup of a binary name on the
//! platform search path, with the reply decided in verified code.

use vstd::prelude::*;

verus! {

/// The error reply for a name the search path does not hold.
pub open spec fn not_found_message(name: Seq<char>) -> Seq<char> {
    name + " not found in PATH"@
}

/// Relies on `which::which`: resolves a binary name to an executable's path
/// by searching the platform's `PATH`. The outcome depends on the machine's
/// environment and filesystem, so nothing is claimed about which case comes
/// back; [`resolve_lookup`] decides the command's reply for each outcome.
#[verifier::external_body]
fn which_lookup(binary_name: &str) -> (located: Option<String>) {
    which::which(binary_name).ok().map(|p| p.to_string_lossy().to_string())
}

/// Decides the command's reply from the lookup's outcome: the located path is
/// handed back verbatim, and a miss is the not-found error naming the binary
/// that was asked for.
pub fn resolve_lookup(binary_name: &str, located: Option<String>) -> (r: Result<String, String>)
    ensures
        located is Some ==> r is Ok && r->Ok_0@ == located->0@,
        located is None ==> r is Err && r->Err_0@ == not_found_message(binary_name@),
{
    match located {
        Some(path) => Ok(path),
        None => Err(String::from_str(binary_name).concat(" not found in PATH")),
    }
}

/// Looks `binary_name` up on the search path. Which binaries the machine
/// holds is its own business, but whatever the lookup finds, an error reply
/// is exactly the not-found message for the requested name.
pub fn find_binary_in_path(binary_name: &str) -> (r: Result<String, String>)
    ensures
        r is Err ==> r->Err_0@ == not_found_message(binary_name@),
{
    let located = which_lookup(binary_name);
    resolve_lookup(binary_name, located)
}

} // verus!

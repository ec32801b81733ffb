//! The file- and directory-selection commands' reply logic. The native
//! picker itself blocks on user input and belongs to the shell; what comes
//! back — a chosen path, or a dismissal — is decided on here.

use vstd::prelude::*;

verus! {

/// Decides the `select-file` reply from the picker's outcome: the chosen
/// path verbatim, and a dismissal is an error, not a null result.
pub fn resolve_file_selection(choice: Option<String>) -> (r: Result<String, String>)
    ensures
        choice is Some ==> r is Ok && r->Ok_0@ == choice->0@,
        choice is None ==> r is Err && r->Err_0@ == "No file selected"@,
{
    match choice {
        Some(path) => Ok(path),
        None => Err(String::from_str("No file selected")),
    }
}

/// Decides the `select-directory` reply from the picker's outcome, the same
/// way with the folder picker's own message.
pub fn resolve_directory_selection(choice: Option<String>) -> (r: Result<String, String>)
    ensures
        choice is Some ==> r is Ok && r->Ok_0@ == choice->0@,
        choice is None ==> r is Err && r->Err_0@ == "No directory selected"@,
{
    match choice {
        Some(path) => Ok(path),
        None => Err(String::from_str("No directory selected")),
    }
}

} // verus!

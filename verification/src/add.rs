//! Adding an entry: a view to type it in, and the append on submission.

use vstd::prelude::*;
use crate::error::LauncherError;
use crate::store::{appended, CommandStore, EntryView};
use crate::view::{entry_view, ViewRequest};

verus! {

/// The entry point of the add flow.
pub struct AddCommandFlow;

impl AddCommandFlow {
    /// Asks for the entry view to be shown. Nothing else happens here.
    pub fn open() -> (request: ViewRequest)
        ensures
            request.label@ == "add-command"@,
            request.page@ == "add_command.html"@,
    {
        entry_view()
    }

    /// Takes a submission from the entry view and adds it to the registry.
    /// An error of the append is handed on as it is, the document is then
    /// unchanged, and what was submitted stays with the caller to try again.
    pub fn submit(store: &mut CommandStore, title: &str, command: &str) -> (result: Result<
        (),
        LauncherError,
    >)
        ensures
            match old(store)@ {
                None => result == Err::<(), LauncherError>(LauncherError::Persistence),
                Some(text) => match appended(
                    text,
                    EntryView { title: title@, command: command@ },
                ) {
                    Ok(next) => result is Ok && final(store)@ == Some(next),
                    Err(error) => result == Err::<(), LauncherError>(error),
                },
            },
            result is Err ==> final(store)@ == old(store)@,
    {
        store.append(title, command)
    }
}

} // verus!

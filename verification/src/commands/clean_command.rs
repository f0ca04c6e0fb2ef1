use vstd::prelude::*;

verus! {

/// Why there is nothing to clean.
#[derive(Debug, PartialEq, Eq, Clone, Copy, Structural)]
pub enum CleanError {
    /// There is no `.haxelib` folder.
    FolderMissing,
}

impl CleanError {
    pub fn message(&self) -> (r: &'static str)
        ensures
            r@ == "A .haxelib folder does not exist in this directory, so it cannot be removed."@,
    {
        "A .haxelib folder does not exist in this directory, so it cannot be removed."
    }
}

/// Decides whether the `.haxelib` folder is to be removed: only where there is one.
pub fn remove_haxelib_folder(folder_exists: bool) -> (r: Result<(), CleanError>)
    ensures
        r is Ok <==> folder_exists,
        r is Err ==> r->Err_0 == CleanError::FolderMissing,
{
    if folder_exists {
        Ok(())
    } else {
        Err(CleanError::FolderMissing)
    }
}

} // verus!

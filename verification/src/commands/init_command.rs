use vstd::prelude::*;
use crate::hmm::dependencies::Dependancies;
use crate::hmm::json::create_empty_hmm_json;

verus! {

/// Why a project cannot be set up.
#[derive(Debug, PartialEq, Eq, Clone, Copy, Structural)]
pub enum InitError {
    /// There is a `.haxelib` folder already. It is left as it is.
    FolderExists,
}

impl InitError {
    pub fn message(&self) -> (r: &'static str)
        ensures
            r@ == "A .haxelib folder already exists in this directory, so it won't be created. \nuse `hmm-rs clean` to remove the folder"@,
    {
        "A .haxelib folder already exists in this directory, so it won't be created. \nuse `hmm-rs clean` to remove the folder"
    }
}

/// Decides whether the `.haxelib` folder is to be created: only where there is none.
pub fn create_haxelib_folder(folder_exists: bool) -> (r: Result<(), InitError>)
    ensures
        r is Ok <==> !folder_exists,
        r is Err ==> r->Err_0 == InitError::FolderExists,
{
    if folder_exists {
        Err(InitError::FolderExists)
    } else {
        Ok(())
    }
}

/// Decides how a project is set up: where there is no `.haxelib` folder, the folder is
/// to be created and the manifest that is returned, an empty one, to be written. Where
/// there is one, nothing is to be done.
pub fn init_hmm(folder_exists: bool) -> (r: Result<Dependancies, InitError>)
    ensures
        r is Ok <==> !folder_exists,
        r is Err ==> r->Err_0 == InitError::FolderExists,
        r is Ok ==> r->Ok_0@.len() == 0,
{
    match create_haxelib_folder(folder_exists) {
        Ok(_) => Ok(create_empty_hmm_json()),
        Err(e) => Err(e),
    }
}

} // verus!

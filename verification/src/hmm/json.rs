//! The manifest as its file spells it. Turning the entries into JSON text and back is the
//! caller's part; what an entry's fields mean is decided here.

use vstd::prelude::*;
use crate::hmm::dependencies::{Dependancies, ManifestError};
use crate::hmm::haxelib::{copy_text, opt_text, Haxelib, HaxelibModel, HaxelibType};

verus! {

/// One entry of the manifest file: the source as the word that the `type` field holds,
/// the other fields as they are.
#[derive(Debug, PartialEq, Eq)]
pub struct ManifestEntry {
    pub name: String,
    pub kind: String,
    pub vcs_ref: Option<String>,
    pub dir: Option<String>,
    pub url: Option<String>,
    pub version: Option<String>,
}

pub ghost struct ManifestEntryModel {
    pub name: Seq<char>,
    pub kind: Seq<char>,
    pub vcs_ref: Option<Seq<char>>,
    pub dir: Option<Seq<char>>,
    pub url: Option<Seq<char>>,
    pub version: Option<Seq<char>>,
}

impl View for ManifestEntry {
    type V = ManifestEntryModel;

    open spec fn view(&self) -> ManifestEntryModel {
        ManifestEntryModel {
            name: self.name@,
            kind: self.kind@,
            vcs_ref: opt_text(self.vcs_ref),
            dir: opt_text(self.dir),
            url: opt_text(self.url),
            version: opt_text(self.version),
        }
    }
}

/// The entry that a dependency is written as.
pub open spec fn written(dep: HaxelibModel) -> ManifestEntryModel {
    ManifestEntryModel {
        name: dep.name,
        kind: dep.haxelib_type.manifest_name_spec(),
        vcs_ref: dep.vcs_ref,
        dir: dep.dir,
        url: dep.url,
        version: dep.version,
    }
}

/// The dependency that an entry is read as. Only the source can fail to read: it has to
/// be one of the four words.
pub open spec fn read(entry: ManifestEntryModel) -> Option<HaxelibModel> {
    match HaxelibType::parse_manifest_name(entry.kind) {
        Some(haxelib_type) => Some(
            HaxelibModel {
                name: entry.name,
                haxelib_type,
                vcs_ref: entry.vcs_ref,
                dir: entry.dir,
                url: entry.url,
                version: entry.version,
            },
        ),
        None => None,
    }
}

/// The models of the entries, one by one.
pub open spec fn entries_model(entries: Seq<ManifestEntry>) -> Seq<ManifestEntryModel> {
    Seq::new(entries.len(), |i: int| entries[i]@)
}

/// A manifest written out, entry by entry.
pub open spec fn written_all(deps: Seq<HaxelibModel>) -> Seq<ManifestEntryModel> {
    Seq::new(deps.len(), |i: int| written(deps[i]))
}

/// Whether every entry reads as a dependency.
pub open spec fn readable(entries: Seq<ManifestEntryModel>) -> bool {
    forall|i: int| 0 <= i < entries.len() ==> read(#[trigger] entries[i]) is Some
}

/// The entries read back, one by one.
pub open spec fn read_all(entries: Seq<ManifestEntryModel>) -> Seq<HaxelibModel>
    recommends
        readable(entries),
{
    Seq::new(entries.len(), |i: int| read(entries[i])->0)
}

fn write_entry(haxelib: &Haxelib) -> (r: ManifestEntry)
    ensures
        r@ == written(haxelib@),
{
    ManifestEntry {
        name: haxelib.name.clone(),
        kind: String::from_str(haxelib.haxelib_type.manifest_name()),
        vcs_ref: copy_text(&haxelib.vcs_ref),
        dir: copy_text(&haxelib.dir),
        url: copy_text(&haxelib.url),
        version: copy_text(&haxelib.version),
    }
}

fn read_entry(entry: &ManifestEntry) -> (r: Option<Haxelib>)
    ensures
        match read(entry@) {
            Some(dep) => r is Some && r->0@ == dep,
            None => r is None,
        },
{
    match HaxelibType::from_manifest_name(entry.kind.as_str()) {
        Some(haxelib_type) => Some(
            Haxelib {
                name: entry.name.clone(),
                haxelib_type,
                vcs_ref: copy_text(&entry.vcs_ref),
                dir: copy_text(&entry.dir),
                url: copy_text(&entry.url),
                version: copy_text(&entry.version),
            },
        ),
        None => None,
    }
}

/// The entries that the manifest is saved as, in its order.
pub fn save_json(deps: &Dependancies) -> (r: Vec<ManifestEntry>)
    ensures
        entries_model(r@) == written_all(deps@),
{
    let n = deps.dependencies.len();
    let mut out: Vec<ManifestEntry> = Vec::new();
    let mut i: usize = 0;
    while i < n
        invariant
            n == deps.dependencies@.len(),
            i <= n,
            out@.len() == i,
            forall|j: int| 0 <= j < i ==> (#[trigger] out@[j])@ == written(deps@[j]),
        decreases n - i,
    {
        out.push(write_entry(&deps.dependencies[i]));
        i += 1;
    }
    assert(entries_model(out@) =~= written_all(deps@));
    out
}

/// The manifest that the entries of a file make, in their order. One entry whose source
/// is no known word fails the whole manifest.
pub fn read_json(entries: &Vec<ManifestEntry>) -> (r: Result<Dependancies, ManifestError>)
    ensures
        r is Ok <==> readable(entries_model(entries@)),
        r is Err ==> r->Err_0 == ManifestError::UnknownType,
        r is Ok ==> r->Ok_0@ == read_all(entries_model(entries@)),
{
    let n = entries.len();
    let mut out: Vec<Haxelib> = Vec::new();
    let mut i: usize = 0;
    while i < n
        invariant
            n == entries@.len(),
            i <= n,
            out@.len() == i,
            forall|j: int| 0 <= j < i ==> read(#[trigger] entries_model(entries@)[j]) is Some,
            forall|j: int|
                0 <= j < i ==> (#[trigger] out@[j])@ == read(entries_model(entries@)[j])->0,
        decreases n - i,
    {
        match read_entry(&entries[i]) {
            Some(haxelib) => {
                out.push(haxelib);
            },
            None => {
                assert(read(entries_model(entries@)[i as int]) is None);
                return Err(ManifestError::UnknownType);
            },
        }
        i += 1;
    }
    let deps = Dependancies { dependencies: out };
    assert(deps@ =~= read_all(entries_model(entries@)));
    Ok(deps)
}

/// The manifest that a fresh project starts with: no dependencies.
pub fn create_empty_hmm_json() -> (r: Dependancies)
    ensures
        r@ == Seq::<HaxelibModel>::empty(),
        r.dependencies@.len() == 0,
{
    let r = Dependancies { dependencies: Vec::new() };
    assert(r@ =~= Seq::<HaxelibModel>::empty());
    r
}

/// A manifest that is saved and read again is the manifest that was saved: every entry
/// reads, and reads as the dependency it was written from.
pub proof fn lemma_save_then_read(deps: Seq<HaxelibModel>)
    ensures
        readable(written_all(deps)),
        read_all(written_all(deps)) == deps,
{
    assert forall|i: int| 0 <= i < deps.len() implies read(#[trigger] written_all(deps)[i])
        == Some(deps[i]) by {
        HaxelibType::lemma_manifest_name_round_trip(deps[i].haxelib_type);
    }
    assert(read_all(written_all(deps)) =~= deps);
}

} // verus!

use vstd::prelude::*;
use vstd::string::*;
use crate::hmm::haxelib::{Haxelib, HaxelibModel, HaxelibType};
use crate::text::same_text;

verus! {

/// What is wrong with a manifest, or with a question put to it.
#[derive(Debug, PartialEq, Eq, Clone, Copy, Structural)]
pub enum ManifestError {
    /// No dependency has the name that was asked for.
    NotFound,
    /// A git dependency names no remote.
    MissingUrl,
    /// An entry's source is none of `git`, `haxelib`, `dev` and `hg`.
    UnknownType,
    /// A dependency's pins do not match its source.
    BadPin,
    /// Two dependencies have the same name.
    DuplicateName,
}

/// The manifest: the declared dependencies, in the order in which they were written.
#[derive(Debug, PartialEq, Eq)]
pub struct Dependancies {
    pub dependencies: Vec<Haxelib>,
}

impl View for Dependancies {
    type V = Seq<HaxelibModel>;

    open spec fn view(&self) -> Seq<HaxelibModel> {
        Seq::new(self.dependencies@.len(), |i: int| self.dependencies@[i]@)
    }
}

/// Whether every dependency has the pins of its source and no others.
pub open spec fn all_well_formed(deps: Seq<HaxelibModel>) -> bool {
    forall|i: int| 0 <= i < deps.len() ==> (#[trigger] deps[i]).well_formed()
}

/// Whether the names tell the dependencies apart.
pub open spec fn unique_names(deps: Seq<HaxelibModel>) -> bool {
    forall|i: int, j: int|
        0 <= i < j < deps.len() ==> (#[trigger] deps[i]).name != (#[trigger] deps[j]).name
}

/// The index of the first dependency at or after `from` that is called `name`.
pub open spec fn find_named(deps: Seq<HaxelibModel>, name: Seq<char>, from: int) -> Option<int>
    decreases deps.len() - from,
{
    if from < 0 || from >= deps.len() {
        None
    } else if deps[from].name == name {
        Some(from)
    } else {
        find_named(deps, name, from + 1)
    }
}

/// `find_named` finds a dependency exactly where there is one of that name at or after
/// `from`, and then the first of them.
pub proof fn lemma_find_named(deps: Seq<HaxelibModel>, name: Seq<char>, from: int)
    requires
        0 <= from,
    ensures
        find_named(deps, name, from) matches Some(i) ==> from <= i < deps.len() && deps[i].name
            == name,
        forall|j: int|
            from <= j < deps.len() && (find_named(deps, name, from) matches Some(i) ==> j < i)
                ==> (#[trigger] deps[j]).name != name,
    decreases deps.len() - from,
{
    if from < deps.len() && deps[from].name != name {
        lemma_find_named(deps, name, from + 1);
    }
}

/// The line of a listing that gives the pin.
pub open spec fn version_or_ref(dep: HaxelibModel) -> Seq<char> {
    match dep.version {
        Some(v) => "version: "@ + v,
        None => match dep.vcs_ref {
            Some(r) => "ref: "@ + r,
            None => "No version or ref"@,
        },
    }
}

/// The line of a listing that says where the dependency comes from, for the sources
/// that have such a place.
pub open spec fn url_line(dep: HaxelibModel) -> Seq<char> {
    match dep.haxelib_type {
        HaxelibType::Git => match dep.url {
            Some(u) => "url: "@ + u + "\n"@,
            None => Seq::empty(),
        },
        HaxelibType::Haxelib => "url: https://lib.haxe.org/p/"@ + dep.name + "\n"@,
        _ => Seq::empty(),
    }
}

/// How one dependency is listed: its name and source, its pin, and its place.
pub open spec fn listing(dep: HaxelibModel) -> Seq<char> {
    dep.name + " ["@ + dep.haxelib_type.label_spec() + "] \n"@ + version_or_ref(dep) + " \n"@
        + url_line(dep)
}

/// The texts of a list of strings.
pub open spec fn texts(lines: Seq<String>) -> Seq<Seq<char>> {
    Seq::new(lines.len(), |i: int| lines[i]@)
}

/// The listing of every dependency, in the manifest's order.
pub open spec fn list_all(deps: Seq<HaxelibModel>) -> Seq<Seq<char>> {
    Seq::new(deps.len(), |i: int| listing(deps[i]))
}

/// Whether the manifest has a dependency of each of the names.
pub open spec fn all_named(deps: Seq<HaxelibModel>, names: Seq<String>) -> bool {
    forall|i: int| 0 <= i < names.len() ==> find_named(deps, (#[trigger] names[i])@, 0) is Some
}

/// The listing of the dependency of each name, in the order of the names.
pub open spec fn list_named(deps: Seq<HaxelibModel>, names: Seq<String>) -> Seq<Seq<char>> {
    Seq::new(names.len(), |i: int| listing(deps[find_named(deps, names[i]@, 0)->0]))
}

impl Dependancies {
    /// Checks the manifest's integrity: every dependency has the pins of its source and
    /// no others, and no name is used twice. Wrong pins are reported before a name that
    /// is used twice.
    pub fn validate(&self) -> (r: Result<(), ManifestError>)
        ensures
            r is Ok <==> all_well_formed(self@) && unique_names(self@),
            !all_well_formed(self@) ==> r == Err::<(), ManifestError>(ManifestError::BadPin),
            all_well_formed(self@) && !unique_names(self@) ==> r == Err::<(), ManifestError>(
                ManifestError::DuplicateName,
            ),
    {
        let n = self.dependencies.len();
        let mut k: usize = 0;
        while k < n
            invariant
                n == self.dependencies@.len(),
                k <= n,
                forall|a: int| 0 <= a < k ==> (#[trigger] self@[a]).well_formed(),
            decreases n - k,
        {
            if !self.dependencies[k].is_well_formed() {
                assert(!self@[k as int].well_formed());
                return Err(ManifestError::BadPin);
            }
            k += 1;
        }
        let mut i: usize = 0;
        while i < n
            invariant
                n == self.dependencies@.len(),
                i <= n,
                all_well_formed(self@),
                forall|a: int, b: int|
                    0 <= a < b < n && a < i ==> (#[trigger] self@[a]).name != (
                    #[trigger] self@[b]).name,
            decreases n - i,
        {
            let mut j: usize = i + 1;
            while j < n
                invariant
                    n == self.dependencies@.len(),
                    i < n,
                    i < j <= n,
                    all_well_formed(self@),
                    forall|b: int| i < b < j ==> self@[i as int].name != (#[trigger] self@[b]).name,
                decreases n - j,
            {
                if same_text(self.dependencies[i].name.as_str(), self.dependencies[j].name.as_str()) {
                    assert(self@[i as int].name == self@[j as int].name);
                    return Err(ManifestError::DuplicateName);
                }
                j += 1;
            }
            i += 1;
        }
        Ok(())
    }

    /// The first dependency called `lib`.
    pub fn get_haxelib(&self, lib: &str) -> (r: Result<&Haxelib, ManifestError>)
        ensures
            match find_named(self@, lib@, 0) {
                Some(i) => r is Ok && 0 <= i < self.dependencies@.len() && r->Ok_0
                    == &self.dependencies@[i],
                None => r == Err::<&Haxelib, ManifestError>(ManifestError::NotFound),
            },
    {
        let n = self.dependencies.len();
        let mut i: usize = 0;
        while i < n
            invariant
                n == self.dependencies@.len(),
                i <= n,
                find_named(self@, lib@, 0) == find_named(self@, lib@, i as int),
            decreases n - i,
        {
            let haxelib = &self.dependencies[i];
            if same_text(haxelib.name.as_str(), lib) {
                return Ok(haxelib);
            }
            i += 1;
        }
        Err(ManifestError::NotFound)
    }

    /// How one dependency is listed.
    pub fn print_haxelib(lib: &Haxelib) -> (r: String)
        ensures
            r@ == listing(lib@),
    {
        let mut out = lib.name.clone();
        out.append(" [");
        out.append(lib.haxelib_type.label());
        out.append("] \n");
        let ghost head = out@;
        match &lib.version {
            Some(v) => {
                let mut line = String::from_str("version: ");
                line.append(v.as_str());
                out.append(line.as_str());
            },
            None => match &lib.vcs_ref {
                Some(r) => {
                    let mut line = String::from_str("ref: ");
                    line.append(r.as_str());
                    out.append(line.as_str());
                },
                None => {
                    out.append("No version or ref");
                },
            },
        }
        assert(out@ == head + version_or_ref(lib@));
        out.append(" \n");
        let ghost body = out@;
        match lib.haxelib_type {
            HaxelibType::Git => {
                match &lib.url {
                    Some(u) => {
                        let mut line = String::from_str("url: ");
                        line.append(u.as_str());
                        line.append("\n");
                        out.append(line.as_str());
                    },
                    None => {},
                }
            },
            HaxelibType::Haxelib => {
                let mut line = String::from_str("url: https://lib.haxe.org/p/");
                line.append(lib.name.as_str());
                line.append("\n");
                out.append(line.as_str());
            },
            _ => {},
        }
        assert(out@ =~= body + url_line(lib@));
        out
    }

    /// The listings that were asked for: those of the named dependencies, in the order
    /// of the names, or of all where no names are given. One name that the manifest
    /// does not have fails the whole request.
    pub fn print_string_list(&self, libs: &Option<Vec<String>>) -> (r: Result<
        Vec<String>,
        ManifestError,
    >)
        ensures
            match *libs {
                None => r is Ok && texts(r->Ok_0@) == list_all(self@),
                Some(names) => if all_named(self@, names@) {
                    r is Ok && texts(r->Ok_0@) == list_named(self@, names@)
                } else {
                    r == Err::<Vec<String>, ManifestError>(ManifestError::NotFound)
                },
            },
    {
        let mut out: Vec<String> = Vec::new();
        match libs {
            Some(names) => {
                let n = names.len();
                let mut i: usize = 0;
                while i < n
                    invariant
                        *libs == Some(*names),
                        n == names@.len(),
                        i <= n,
                        out@.len() == i,
                        forall|j: int|
                            0 <= j < i ==> find_named(self@, (#[trigger] names@[j])@, 0) is Some,
                        forall|j: int|
                            0 <= j < i ==> (#[trigger] out@[j])@ == listing(
                                self@[find_named(self@, names@[j]@, 0)->0],
                            ),
                    decreases n - i,
                {
                    match self.get_haxelib(names[i].as_str()) {
                        Ok(haxelib) => {
                            out.push(Self::print_haxelib(haxelib));
                        },
                        Err(_) => {
                            assert(find_named(self@, names@[i as int]@, 0) is None);
                            return Err(ManifestError::NotFound);
                        },
                    }
                    i += 1;
                }
                assert(texts(out@) =~= list_named(self@, names@));
                Ok(out)
            },
            None => {
                let n = self.dependencies.len();
                let mut i: usize = 0;
                while i < n
                    invariant
                        n == self.dependencies@.len(),
                        i <= n,
                        out@.len() == i,
                        forall|j: int| 0 <= j < i ==> (#[trigger] out@[j])@ == listing(self@[j]),
                    decreases n - i,
                {
                    out.push(Self::print_haxelib(&self.dependencies[i]));
                    i += 1;
                }
                assert(texts(out@) =~= list_all(self@));
                Ok(out)
            },
        }
    }
}

} // verus!

use vstd::prelude::*;

verus! {

/// The source a dependency is installed from.
#[derive(Debug, PartialEq, Eq, Clone, Copy, Structural)]
pub enum HaxelibType {
    /// A git repository, pinned by a reference.
    Git,
    /// A release on the haxelib registry, pinned by a version.
    Haxelib,
    /// A directory on the developer's machine.
    Dev,
    /// A mercurial repository; declared in manifests, never installed.
    Mecurial,
}

impl HaxelibType {
    /// The word that the manifest's `type` field holds for this source.
    pub open spec fn manifest_name_spec(self) -> Seq<char> {
        match self {
            HaxelibType::Git => "git"@,
            HaxelibType::Haxelib => "haxelib"@,
            HaxelibType::Dev => "dev"@,
            HaxelibType::Mecurial => "hg"@,
        }
    }

    /// The source that a `type` field names, if it names one.
    pub open spec fn parse_manifest_name(name: Seq<char>) -> Option<HaxelibType> {
        if name == "git"@ {
            Some(HaxelibType::Git)
        } else if name == "haxelib"@ {
            Some(HaxelibType::Haxelib)
        } else if name == "dev"@ {
            Some(HaxelibType::Dev)
        } else if name == "hg"@ {
            Some(HaxelibType::Mecurial)
        } else {
            None
        }
    }

    /// The variant's name as listings show it.
    pub open spec fn label_spec(self) -> Seq<char> {
        match self {
            HaxelibType::Git => "Git"@,
            HaxelibType::Haxelib => "Haxelib"@,
            HaxelibType::Dev => "Dev"@,
            HaxelibType::Mecurial => "Mecurial"@,
        }
    }

    pub fn manifest_name(&self) -> (r: &'static str)
        ensures
            r@ == self.manifest_name_spec(),
    {
        match self {
            HaxelibType::Git => "git",
            HaxelibType::Haxelib => "haxelib",
            HaxelibType::Dev => "dev",
            HaxelibType::Mecurial => "hg",
        }
    }

    pub fn from_manifest_name(name: &str) -> (r: Option<HaxelibType>)
        ensures
            r == Self::parse_manifest_name(name@),
    {
        if crate::text::same_text(name, "git") {
            Some(HaxelibType::Git)
        } else if crate::text::same_text(name, "haxelib") {
            Some(HaxelibType::Haxelib)
        } else if crate::text::same_text(name, "dev") {
            Some(HaxelibType::Dev)
        } else if crate::text::same_text(name, "hg") {
            Some(HaxelibType::Mecurial)
        } else {
            None
        }
    }

    pub fn label(&self) -> (r: &'static str)
        ensures
            r@ == self.label_spec(),
    {
        match self {
            HaxelibType::Git => "Git",
            HaxelibType::Haxelib => "Haxelib",
            HaxelibType::Dev => "Dev",
            HaxelibType::Mecurial => "Mecurial",
        }
    }

    /// Reading back the word written for a source gives that source again.
    pub proof fn lemma_manifest_name_round_trip(t: HaxelibType)
        ensures
            Self::parse_manifest_name(t.manifest_name_spec()) == Some(t),
    {
        reveal_strlit("git");
        reveal_strlit("haxelib");
        reveal_strlit("dev");
        reveal_strlit("hg");
        assert("git"@.len() == 3 && "haxelib"@.len() == 7 && "dev"@.len() == 3 && "hg"@.len() == 2);
        assert("git"@[0] == 'g' && "dev"@[0] == 'd');
    }
}

/// The text of an optional string.
pub open spec fn opt_text(o: Option<String>) -> Option<Seq<char>> {
    match o {
        Some(s) => Some(s@),
        None => None,
    }
}

/// A copy of an optional string.
pub fn copy_text(o: &Option<String>) -> (r: Option<String>)
    ensures
        opt_text(r) == opt_text(*o),
{
    match o {
        Some(s) => Some(s.clone()),
        None => None,
    }
}

/// One declared dependency.
#[derive(Debug, PartialEq, Eq)]
pub struct Haxelib {
    pub name: String,
    pub haxelib_type: HaxelibType,
    /// The branch, tag or commit that a git dependency is pinned to.
    pub vcs_ref: Option<String>,
    pub dir: Option<String>,
    /// The remote of a git dependency.
    pub url: Option<String>,
    /// The release that a registry dependency is pinned to.
    pub version: Option<String>,
}

/// A declared dependency as contracts speak of it.
pub ghost struct HaxelibModel {
    pub name: Seq<char>,
    pub haxelib_type: HaxelibType,
    pub vcs_ref: Option<Seq<char>>,
    pub dir: Option<Seq<char>>,
    pub url: Option<Seq<char>>,
    pub version: Option<Seq<char>>,
}

impl HaxelibModel {
    /// The pin: the version of a registry dependency, the reference of a git dependency.
    /// The other sources have none.
    pub open spec fn wants(self) -> Option<Seq<char>> {
        match self.haxelib_type {
            HaxelibType::Haxelib => self.version,
            HaxelibType::Git => self.vcs_ref,
            _ => None,
        }
    }

    /// The pins match the source: there is a version exactly on a registry dependency,
    /// a reference exactly on a git dependency, and a remote exactly on a git dependency.
    pub open spec fn well_formed(self) -> bool {
        &&& self.version is Some <==> self.haxelib_type == HaxelibType::Haxelib
        &&& self.vcs_ref is Some <==> self.haxelib_type == HaxelibType::Git
        &&& self.url is Some <==> self.haxelib_type == HaxelibType::Git
    }
}

impl View for Haxelib {
    type V = HaxelibModel;

    open spec fn view(&self) -> HaxelibModel {
        HaxelibModel {
            name: self.name@,
            haxelib_type: self.haxelib_type,
            vcs_ref: opt_text(self.vcs_ref),
            dir: opt_text(self.dir),
            url: opt_text(self.url),
            version: opt_text(self.version),
        }
    }
}

impl Haxelib {
    /// Whether the pins match the source.
    pub fn is_well_formed(&self) -> (r: bool)
        ensures
            r == self@.well_formed(),
    {
        let registry = self.haxelib_type == HaxelibType::Haxelib;
        let git = self.haxelib_type == HaxelibType::Git;
        self.version.is_some() == registry && self.vcs_ref.is_some() == git
            && self.url.is_some() == git
    }
}

} // verus!

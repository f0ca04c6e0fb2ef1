use vstd::prelude::*;
use vstd::string::*;
use crate::hmm::dependencies::{Dependancies, ManifestError};
use crate::hmm::haxelib::{Haxelib, HaxelibModel, HaxelibType};

verus! {

/// What follows the name in a dependency's build flag: `:git:`, the remote and, where
/// there is a pin, `#` and the pin for a git dependency; `:` and the version for a
/// registry dependency that has one; nothing for the others.
pub open spec fn lib_suffix(dep: HaxelibModel) -> Seq<char> {
    match dep.haxelib_type {
        HaxelibType::Git => ":git:"@ + dep.url->0 + match dep.vcs_ref {
            Some(r) => "#"@ + r,
            None => Seq::empty(),
        },
        HaxelibType::Haxelib => match dep.version {
            Some(v) => ":"@ + v,
            None => Seq::empty(),
        },
        _ => Seq::empty(),
    }
}

/// The build flag of one dependency, as a line.
pub open spec fn lib_line(dep: HaxelibModel) -> Seq<char> {
    "-lib "@ + dep.name + lib_suffix(dep) + "\n"@
}

/// Whether the dependency can be written as a build flag: a git dependency needs its
/// remote.
pub open spec fn has_flag(dep: HaxelibModel) -> bool {
    dep.haxelib_type == HaxelibType::Git ==> dep.url is Some
}

/// The build flags of the dependencies, one line each, in the manifest's order.
pub open spec fn hxml(deps: Seq<HaxelibModel>) -> Seq<char>
    decreases deps.len(),
{
    if deps.len() == 0 {
        Seq::empty()
    } else {
        hxml(deps.drop_last()) + lib_line(deps.last())
    }
}

fn flag_line(haxelib: &Haxelib) -> (r: Result<String, ManifestError>)
    ensures
        r is Ok <==> has_flag(haxelib@),
        r is Err ==> r->Err_0 == ManifestError::MissingUrl,
        r is Ok ==> r->Ok_0@ == lib_line(haxelib@),
{
    let mut line = String::from_str("-lib ");
    line.append(haxelib.name.as_str());
    let ghost head = line@;
    match haxelib.haxelib_type {
        HaxelibType::Git => {
            match &haxelib.url {
                None => {
                    return Err(ManifestError::MissingUrl);
                },
                Some(url) => {
                    let mut suffix = String::from_str(":git:");
                    suffix.append(url.as_str());
                    match &haxelib.vcs_ref {
                        Some(r) => {
                            let mut pin = String::from_str("#");
                            pin.append(r.as_str());
                            suffix.append(pin.as_str());
                        },
                        None => {},
                    }
                    assert(suffix@ =~= lib_suffix(haxelib@));
                    line.append(suffix.as_str());
                },
            }
        },
        HaxelibType::Haxelib => {
            match &haxelib.version {
                Some(v) => {
                    let mut suffix = String::from_str(":");
                    suffix.append(v.as_str());
                    line.append(suffix.as_str());
                },
                None => {},
            }
        },
        _ => {},
    }
    assert(line@ =~= head + lib_suffix(haxelib@));
    line.append("\n");
    Ok(line)
}

/// Writes the manifest out as build flags. The text is for a compiler to read, not for
/// reading a manifest back from.
///
/// Fails where a git dependency names no remote, and only there.
pub fn dump_to_hxml(deps: &Dependancies) -> (r: Result<String, ManifestError>)
    ensures
        r is Ok <==> forall|i: int| 0 <= i < deps@.len() ==> has_flag(#[trigger] deps@[i]),
        r is Err ==> r->Err_0 == ManifestError::MissingUrl,
        r is Ok ==> r->Ok_0@ == hxml(deps@),
{
    let n = deps.dependencies.len();
    let mut out = String::new();
    let mut i: usize = 0;
    while i < n
        invariant
            n == deps.dependencies@.len(),
            n == deps@.len(),
            i <= n,
            forall|j: int| 0 <= j < i ==> has_flag(#[trigger] deps@[j]),
            out@ == hxml(deps@.subrange(0, i as int)),
        decreases n - i,
    {
        assert(deps@.subrange(0, i + 1).drop_last() == deps@.subrange(0, i as int));
        assert(deps@.subrange(0, i + 1).last() == deps@[i as int]);
        match flag_line(&deps.dependencies[i]) {
            Ok(line) => {
                out.append(line.as_str());
            },
            Err(_) => {
                assert(!has_flag(deps@[i as int]));
                return Err(ManifestError::MissingUrl);
            },
        }
        i += 1;
    }
    assert(deps@.subrange(0, n as int) == deps@);
    Ok(out)
}

} // verus!

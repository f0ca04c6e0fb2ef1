//! Where a dependency's local record lives under `.haxelib`.

use vstd::prelude::*;
use vstd::string::*;
use crate::text::{dots_to_commas, replace_dots};

verus! {

/// The record directory of the dependency called `name`: under `.haxelib`, named as the
/// dependency with every `.` turned into `,`.
pub open spec fn record_dir_spec(name: Seq<char>) -> Seq<char> {
    ".haxelib/"@ + dots_to_commas(name)
}

/// The record directory of the dependency called `name`.
pub fn record_dir(name: &str) -> (r: String)
    ensures
        r@ == record_dir_spec(name@),
{
    let mut out = String::from_str(".haxelib/");
    out.append(replace_dots(name).as_str());
    out
}

/// The record directory of a dependency and what an inspection reads in it.
#[derive(Debug, PartialEq, Eq)]
pub struct RecordPaths {
    pub dir: String,
    /// The marker that overrides `.current`.
    pub dev_marker: String,
    pub current_marker: String,
    /// The working copy of a git dependency.
    pub repository: String,
}

fn below(dir: &str, entry: &str) -> (r: String)
    ensures
        r@ == dir@ + entry@,
{
    let mut out = String::from_str(dir);
    out.append(entry);
    out
}

/// The places that an inspection of the dependency called `name` looks at.
pub fn record_paths(name: &str) -> (r: RecordPaths)
    ensures
        r.dir@ == record_dir_spec(name@),
        r.dev_marker@ == record_dir_spec(name@) + "/.dev"@,
        r.current_marker@ == record_dir_spec(name@) + "/.current"@,
        r.repository@ == record_dir_spec(name@) + "/git"@,
{
    let dir = record_dir(name);
    RecordPaths {
        dev_marker: below(dir.as_str(), "/.dev"),
        current_marker: below(dir.as_str(), "/.current"),
        repository: below(dir.as_str(), "/git"),
        dir,
    }
}

/// Names that differ only in where one has `.` and the other `,` share a record
/// directory; names without a comma never do.
pub proof fn lemma_record_dirs_differ(a: Seq<char>, b: Seq<char>)
    requires
        !a.contains(','),
        !b.contains(','),
        a != b,
    ensures
        dots_to_commas(a) != dots_to_commas(b),
{
    if dots_to_commas(a) == dots_to_commas(b) {
        assert(a.len() == dots_to_commas(a).len());
        assert(b.len() == dots_to_commas(b).len());
        assert forall|i: int| 0 <= i < a.len() implies a[i] == b[i] by {
            assert(dots_to_commas(a)[i] == dots_to_commas(b)[i]);
            assert(a.contains(a[i]));
            assert(b.contains(b[i]));
        }
        assert(a =~= b);
    }
}

} // verus!

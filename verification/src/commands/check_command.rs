use vstd::prelude::*;
use vstd::string::*;
use crate::commands::git_id::{
    abbreviated_id, abbreviation, lemma_lower_case_reads_as_itself, lower_case_hex,
    FULL_HEX_LEN, MIN_HEX_LEN,
};
use crate::hmm::dependencies::Dependancies;
use crate::hmm::haxelib::{copy_text, opt_text, Haxelib, HaxelibModel, HaxelibType};
use crate::text::{same_text, starts_with};

verus! {

/// How a dependency's local record stands against its pin.
#[derive(Debug, PartialEq, Eq, Clone, Copy, Structural)]
pub enum InstallType {
    /// Nothing is installed.
    Missing,
    /// The record directory is there, the git working copy in it is not.
    MissingGit,
    /// Something else than the pin is installed.
    Outdated,
    /// The pin is installed, and the working copy is clean.
    AlreadyInstalled,
    /// The pin is checked out, but the working copy holds local changes.
    Conflict,
    /// The source is one that is declared but neither checked nor installed.
    NotImplemented,
}

/// Why one dependency could not be classified. Each concerns that dependency alone.
#[derive(Debug, PartialEq, Eq, Clone, Copy, Structural)]
pub enum InspectError {
    /// A registry dependency without a version, or a git dependency without a reference.
    MissingPin,
    /// The record directory holds neither `.dev` nor `.current`.
    MarkerMissing,
    /// The marker file is there and could not be read.
    MarkerUnreadable,
    /// The repository's current commit could not be resolved.
    HeadUnresolved,
    /// Whether the working copy is clean could not be found out.
    StatusUnavailable,
    /// The observations handed in are not one for each dependency.
    RecordCount,
}

impl InspectError {
    /// What went wrong, in words.
    pub open spec fn reason_spec(self) -> Seq<char> {
        match self {
            InspectError::MissingPin => "the manifest gives no version or ref for it"@,
            InspectError::MarkerMissing => "there is neither a .dev nor a .current file"@,
            InspectError::MarkerUnreadable => "the file that records its version cannot be read"@,
            InspectError::HeadUnresolved => "the commit that is checked out cannot be resolved"@,
            InspectError::StatusUnavailable => "the working copy cannot be examined for changes"@,
            InspectError::RecordCount => "nothing was observed for it"@,
        }
    }

    pub fn reason(&self) -> (r: &'static str)
        ensures
            r@ == self.reason_spec(),
    {
        match self {
            InspectError::MissingPin => "the manifest gives no version or ref for it",
            InspectError::MarkerMissing => "there is neither a .dev nor a .current file",
            InspectError::MarkerUnreadable => "the file that records its version cannot be read",
            InspectError::HeadUnresolved => "the commit that is checked out cannot be resolved",
            InspectError::StatusUnavailable => "the working copy cannot be examined for changes",
            InspectError::RecordCount => "nothing was observed for it",
        }
    }
}

/// A marker file as it was found on disk.
#[derive(Debug, PartialEq, Eq)]
pub enum MarkerFile {
    Absent,
    Unreadable,
    /// The whole content, untrimmed.
    Content(String),
}

pub ghost enum MarkerModel {
    Absent,
    Unreadable,
    Content(Seq<char>),
}

impl View for MarkerFile {
    type V = MarkerModel;

    open spec fn view(&self) -> MarkerModel {
        match self {
            MarkerFile::Absent => MarkerModel::Absent,
            MarkerFile::Unreadable => MarkerModel::Unreadable,
            MarkerFile::Content(s) => MarkerModel::Content(s@),
        }
    }
}

/// What was observed of an opened git working copy.
#[derive(Debug, PartialEq, Eq)]
pub struct WorkingCopy {
    /// The full id of the commit that is checked out, where it could be resolved.
    pub head: Option<String>,
    /// The short name of the branch that is checked out; `None` on a detached head.
    pub branch: Option<String>,
    /// The full id of the commit that the dependency's pin resolves to, where the
    /// repository knows the pin as a branch or a tag.
    pub pinned_target: Option<String>,
    /// Whether there are uncommitted changes, where that could be found out.
    pub dirty: Option<bool>,
}

pub ghost struct WorkingCopyModel {
    pub head: Option<Seq<char>>,
    pub branch: Option<Seq<char>>,
    pub pinned_target: Option<Seq<char>>,
    pub dirty: Option<bool>,
}

impl View for WorkingCopy {
    type V = WorkingCopyModel;

    open spec fn view(&self) -> WorkingCopyModel {
        WorkingCopyModel {
            head: opt_text(self.head),
            branch: opt_text(self.branch),
            pinned_target: opt_text(self.pinned_target),
            dirty: self.dirty,
        }
    }
}

/// The `git` directory inside a record directory.
#[derive(Debug, PartialEq, Eq)]
pub enum Repository {
    /// There is no such directory.
    Absent,
    /// The directory is there and is no repository that can be opened.
    Unopenable,
    Open(WorkingCopy),
}

pub ghost enum RepositoryModel {
    Absent,
    Unopenable,
    Open(WorkingCopyModel),
}

impl View for Repository {
    type V = RepositoryModel;

    open spec fn view(&self) -> RepositoryModel {
        match self {
            Repository::Absent => RepositoryModel::Absent,
            Repository::Unopenable => RepositoryModel::Unopenable,
            Repository::Open(copy) => RepositoryModel::Open(copy@),
        }
    }
}

/// What was found in a record directory that exists.
#[derive(Debug, PartialEq, Eq)]
pub struct RecordDir {
    /// The `.dev` marker, which overrides `.current`.
    pub dev_marker: MarkerFile,
    /// The `.current` marker.
    pub current_marker: MarkerFile,
    pub repository: Repository,
}

pub ghost struct RecordDirModel {
    pub dev_marker: MarkerModel,
    pub current_marker: MarkerModel,
    pub repository: RepositoryModel,
}

impl View for RecordDir {
    type V = RecordDirModel;

    open spec fn view(&self) -> RecordDirModel {
        RecordDirModel {
            dev_marker: self.dev_marker@,
            current_marker: self.current_marker@,
            repository: self.repository@,
        }
    }
}

/// What was observed on disk for one dependency.
#[derive(Debug, PartialEq, Eq)]
pub enum LocalRecord {
    /// There is no record directory.
    Absent,
    Present(RecordDir),
}

pub ghost enum LocalRecordModel {
    Absent,
    Present(RecordDirModel),
}

impl View for LocalRecord {
    type V = LocalRecordModel;

    open spec fn view(&self) -> LocalRecordModel {
        match self {
            LocalRecord::Absent => LocalRecordModel::Absent,
            LocalRecord::Present(dir) => LocalRecordModel::Present(dir@),
        }
    }
}

/// The classification of one dependency, with what the manifest asks for and what
/// was found where the two differ.
#[derive(Debug, PartialEq, Eq)]
pub struct HaxelibStatus<'a> {
    pub lib: &'a Haxelib,
    pub install_type: InstallType,
    pub wants: Option<String>,
    pub installed: Option<String>,
}

pub ghost struct StatusModel {
    pub lib: HaxelibModel,
    pub install_type: InstallType,
    pub wants: Option<Seq<char>>,
    pub installed: Option<Seq<char>>,
}

impl<'a> View for HaxelibStatus<'a> {
    type V = StatusModel;

    open spec fn view(&self) -> StatusModel {
        StatusModel {
            lib: self.lib@,
            install_type: self.install_type,
            wants: opt_text(self.wants),
            installed: opt_text(self.installed),
        }
    }
}

impl<'a> HaxelibStatus<'a> {
    pub fn new(
        lib: &'a Haxelib,
        install_type: InstallType,
        wants: Option<String>,
        installed: Option<String>,
    ) -> (r: Self)
        ensures
            r.lib == lib,
            r.install_type == install_type,
            r.wants == wants,
            r.installed == installed,
    {
        Self { lib, install_type, wants, installed }
    }
}

/// The marker that counts: `.dev` where there is one, `.current` otherwise.
pub open spec fn effective_marker(dev: MarkerModel, current: MarkerModel) -> MarkerModel {
    if dev is Absent {
        current
    } else {
        dev
    }
}

/// Whether a working copy at commit `head` satisfies the pin. Any of four ways will do:
/// the pin is the commit's full id; the pin is a branch or tag that resolves to the
/// commit; the pin is the branch that is checked out; the pin abbreviates the
/// commit's id.
pub open spec fn pin_matches(pin: Seq<char>, copy: WorkingCopyModel, head: Seq<char>) -> bool {
    ||| pin == head
    ||| copy.pinned_target == Some(head)
    ||| copy.branch == Some(pin)
    ||| (abbreviation(pin) is Some && abbreviation(pin)->0.is_prefix_of(head))
}

/// How an outdated working copy is described: the branch, a space and the commit's
/// full id, or the id alone on a detached head.
pub open spec fn installed_revision(copy: WorkingCopyModel, head: Seq<char>) -> Seq<char> {
    match copy.branch {
        Some(branch) => branch + " "@ + head,
        None => head,
    }
}

/// A classification, put together.
pub open spec fn status_of(
    lib: HaxelibModel,
    install_type: InstallType,
    wants: Option<Seq<char>>,
    installed: Option<Seq<char>>,
) -> StatusModel {
    StatusModel { lib, install_type, wants, installed }
}

/// The classification of a registry dependency whose record directory exists: installed
/// where the marker holds the pinned version, character for character, and outdated
/// where it holds anything else. Nothing is trimmed before the two are compared.
pub open spec fn inspect_registry(dep: HaxelibModel, dir: RecordDirModel) -> Result<
    StatusModel,
    InspectError,
> {
    match effective_marker(dir.dev_marker, dir.current_marker) {
        MarkerModel::Absent => Err(InspectError::MarkerMissing),
        MarkerModel::Unreadable => Err(InspectError::MarkerUnreadable),
        MarkerModel::Content(found) => if Some(found) == dep.version {
            Ok(status_of(dep, InstallType::AlreadyInstalled, None, None))
        } else {
            Ok(status_of(dep, InstallType::Outdated, dep.wants(), Some(found)))
        },
    }
}

/// The classification of a git dependency whose record directory exists. The marker is
/// not consulted: what is installed is what the working copy has checked out.
///
/// A working copy whose current commit cannot be resolved is an error for this
/// dependency; it is not passed off as outdated. Cleanliness is only asked about once
/// the pin is met.
pub open spec fn inspect_git(dep: HaxelibModel, dir: RecordDirModel) -> Result<
    StatusModel,
    InspectError,
> {
    match dir.repository {
        RepositoryModel::Absent => Ok(status_of(dep, InstallType::MissingGit, dep.wants(), None)),
        RepositoryModel::Unopenable => Ok(
            status_of(dep, InstallType::Missing, dep.wants(), None),
        ),
        RepositoryModel::Open(copy) => match copy.head {
            None => Err(InspectError::HeadUnresolved),
            Some(head) => if !pin_matches(dep.vcs_ref->0, copy, head) {
                Ok(
                    status_of(
                        dep,
                        InstallType::Outdated,
                        dep.wants(),
                        Some(installed_revision(copy, head)),
                    ),
                )
            } else {
                match copy.dirty {
                    None => Err(InspectError::StatusUnavailable),
                    Some(true) => Ok(status_of(dep, InstallType::Conflict, dep.wants(), None)),
                    Some(false) => Ok(status_of(dep, InstallType::AlreadyInstalled, None, None)),
                }
            },
        },
    }
}

/// Whether the dependency names the pin that its source needs.
pub open spec fn pinned(dep: HaxelibModel) -> bool {
    match dep.haxelib_type {
        HaxelibType::Haxelib => dep.version is Some,
        HaxelibType::Git => dep.vcs_ref is Some,
        _ => true,
    }
}

/// The classification of one dependency against what was observed for it.
///
/// A dependency without its pin is an error whatever is on disk. Otherwise an absent
/// record directory means `Missing`; a present one is read by the dependency's source.
/// The sources without an installation strategy are `NotImplemented`.
pub open spec fn inspect(dep: HaxelibModel, record: LocalRecordModel) -> Result<
    StatusModel,
    InspectError,
> {
    if !pinned(dep) {
        Err(InspectError::MissingPin)
    } else {
        match record {
            LocalRecordModel::Absent => Ok(
                status_of(dep, InstallType::Missing, dep.wants(), None),
            ),
            LocalRecordModel::Present(dir) => match dep.haxelib_type {
                HaxelibType::Haxelib => inspect_registry(dep, dir),
                HaxelibType::Git => inspect_git(dep, dir),
                _ => Ok(status_of(dep, InstallType::NotImplemented, None, None)),
            },
        }
    }
}

/// The model of a classification that may have failed.
pub open spec fn outcome_model(r: Result<HaxelibStatus<'_>, InspectError>) -> Result<
    StatusModel,
    InspectError,
> {
    match r {
        Ok(status) => Ok(status@),
        Err(e) => Err(e),
    }
}

/// Returns either the haxelib version or the git ref of the haxelib.
pub fn get_wants(haxelib: &Haxelib) -> (r: Option<String>)
    ensures
        opt_text(r) == haxelib@.wants(),
{
    match haxelib.haxelib_type {
        HaxelibType::Haxelib => copy_text(&haxelib.version),
        HaxelibType::Git => copy_text(&haxelib.vcs_ref),
        _ => None,
    }
}

fn select_marker<'m>(dev: &'m MarkerFile, current: &'m MarkerFile) -> (r: &'m MarkerFile)
    ensures
        r@ == effective_marker(dev@, current@),
{
    match dev {
        MarkerFile::Absent => current,
        _ => dev,
    }
}

fn pin_matches_head(pin: &str, copy: &WorkingCopy, head: &str) -> (r: bool)
    ensures
        r == pin_matches(pin@, copy@, head@),
{
    if same_text(pin, head) {
        return true;
    }
    let by_reference = match &copy.pinned_target {
        Some(target) => same_text(target.as_str(), head),
        None => false,
    };
    if by_reference {
        return true;
    }
    let by_branch = match &copy.branch {
        Some(branch) => same_text(branch.as_str(), pin),
        None => false,
    };
    if by_branch {
        return true;
    }
    match abbreviated_id(pin) {
        Some(prefix) => starts_with(head, prefix.as_str()),
        None => false,
    }
}

fn describe_revision(copy: &WorkingCopy, head: &str) -> (r: String)
    ensures
        r@ == installed_revision(copy@, head@),
{
    match &copy.branch {
        Some(branch) => {
            let mut out = branch.clone();
            out.append(" ");
            out.append(head);
            out
        },
        None => String::from_str(head),
    }
}

fn check_registry<'a>(haxelib: &'a Haxelib, dir: &RecordDir) -> (r: Result<
    HaxelibStatus<'a>,
    InspectError,
>)
    requires
        haxelib.version is Some,
    ensures
        outcome_model(r) == inspect_registry(haxelib@, dir@),
        r is Ok ==> r->Ok_0.lib == haxelib,
{
    match select_marker(&dir.dev_marker, &dir.current_marker) {
        MarkerFile::Absent => Err(InspectError::MarkerMissing),
        MarkerFile::Unreadable => Err(InspectError::MarkerUnreadable),
        MarkerFile::Content(found) => {
            let same = match &haxelib.version {
                Some(version) => same_text(version.as_str(), found.as_str()),
                None => false,
            };
            if same {
                Ok(HaxelibStatus::new(haxelib, InstallType::AlreadyInstalled, None, None))
            } else {
                Ok(
                    HaxelibStatus::new(
                        haxelib,
                        InstallType::Outdated,
                        get_wants(haxelib),
                        Some(found.clone()),
                    ),
                )
            }
        },
    }
}

fn check_git<'a>(haxelib: &'a Haxelib, pin: &str, dir: &RecordDir) -> (r: Result<
    HaxelibStatus<'a>,
    InspectError,
>)
    requires
        haxelib.vcs_ref is Some,
        haxelib.vcs_ref->0@ == pin@,
    ensures
        outcome_model(r) == inspect_git(haxelib@, dir@),
        r is Ok ==> r->Ok_0.lib == haxelib,
{
    match &dir.repository {
        Repository::Absent => Ok(
            HaxelibStatus::new(haxelib, InstallType::MissingGit, get_wants(haxelib), None),
        ),
        Repository::Unopenable => Ok(
            HaxelibStatus::new(haxelib, InstallType::Missing, get_wants(haxelib), None),
        ),
        Repository::Open(copy) => match &copy.head {
            None => Err(InspectError::HeadUnresolved),
            Some(head) => {
                if !pin_matches_head(pin, copy, head.as_str()) {
                    Ok(
                        HaxelibStatus::new(
                            haxelib,
                            InstallType::Outdated,
                            get_wants(haxelib),
                            Some(describe_revision(copy, head.as_str())),
                        ),
                    )
                } else {
                    match copy.dirty {
                        None => Err(InspectError::StatusUnavailable),
                        Some(true) => Ok(
                            HaxelibStatus::new(
                                haxelib,
                                InstallType::Conflict,
                                get_wants(haxelib),
                                None,
                            ),
                        ),
                        Some(false) => Ok(
                            HaxelibStatus::new(
                                haxelib,
                                InstallType::AlreadyInstalled,
                                None,
                                None,
                            ),
                        ),
                    }
                }
            },
        },
    }
}

/// Classifies one dependency against what was observed for it on disk.
pub fn check_dependency<'a>(haxelib: &'a Haxelib, record: &LocalRecord) -> (r: Result<
    HaxelibStatus<'a>,
    InspectError,
>)
    ensures
        outcome_model(r) == inspect(haxelib@, record@),
        r is Ok ==> r->Ok_0.lib == haxelib,
{
    match haxelib.haxelib_type {
        HaxelibType::Haxelib => {
            if haxelib.version.is_none() {
                return Err(InspectError::MissingPin);
            }
            match record {
                LocalRecord::Absent => Ok(
                    HaxelibStatus::new(haxelib, InstallType::Missing, get_wants(haxelib), None),
                ),
                LocalRecord::Present(dir) => check_registry(haxelib, dir),
            }
        },
        HaxelibType::Git => {
            match &haxelib.vcs_ref {
                None => Err(InspectError::MissingPin),
                Some(pin) => match record {
                    LocalRecord::Absent => Ok(
                        HaxelibStatus::new(
                            haxelib,
                            InstallType::Missing,
                            get_wants(haxelib),
                            None,
                        ),
                    ),
                    LocalRecord::Present(dir) => check_git(haxelib, pin.as_str(), dir),
                },
            }
        },
        _ => match record {
            LocalRecord::Absent => Ok(
                HaxelibStatus::new(haxelib, InstallType::Missing, None, None),
            ),
            LocalRecord::Present(_) => Ok(
                HaxelibStatus::new(haxelib, InstallType::NotImplemented, None, None),
            ),
        },
    }
}

/// The models of the observations, one by one.
pub open spec fn records_model(records: Seq<LocalRecord>) -> Seq<LocalRecordModel> {
    Seq::new(records.len(), |i: int| records[i]@)
}

/// The models of the classifications, one by one.
pub open spec fn outcomes_model(outcomes: Seq<Result<HaxelibStatus<'_>, InspectError>>) -> Seq<
    Result<StatusModel, InspectError>,
> {
    Seq::new(outcomes.len(), |i: int| outcome_model(outcomes[i]))
}

/// Every dependency classified against the observation at its own index, in the
/// manifest's order. No entry depends on another.
pub open spec fn reconcile(deps: Seq<HaxelibModel>, records: Seq<LocalRecordModel>) -> Seq<
    Result<StatusModel, InspectError>,
>
    recommends
        deps.len() == records.len(),
{
    Seq::new(deps.len(), |i: int| inspect(deps[i], records[i]))
}

/// Classifies every dependency of the manifest. `records` holds what was observed for
/// each, in the manifest's order.
///
/// An entry that cannot be classified gets its own error and stops nothing: the others
/// are classified as if it were not there. The call itself fails only where `records`
/// is not one observation per dependency.
pub fn compare_haxelib_to_hmm<'a>(deps: &'a Dependancies, records: &Vec<LocalRecord>) -> (r:
    Result<Vec<Result<HaxelibStatus<'a>, InspectError>>, InspectError>)
    ensures
        r is Ok <==> deps@.len() == records@.len(),
        r is Err ==> r->Err_0 == InspectError::RecordCount,
        r is Ok ==> outcomes_model(r->Ok_0@) == reconcile(deps@, records_model(records@)),
        r is Ok ==> forall|i: int|
            0 <= i < deps@.len() && (#[trigger] r->Ok_0@[i]) is Ok ==> r->Ok_0@[i]->Ok_0.lib
                == &deps.dependencies@[i],
{
    let n = deps.dependencies.len();
    if records.len() != n {
        return Err(InspectError::RecordCount);
    }
    let mut out: Vec<Result<HaxelibStatus<'a>, InspectError>> = Vec::new();
    let mut i: usize = 0;
    while i < n
        invariant
            n == deps.dependencies@.len(),
            n == records@.len(),
            i <= n,
            out@.len() == i,
            forall|j: int|
                0 <= j < i ==> outcome_model(#[trigger] out@[j]) == inspect(
                    deps@[j],
                    records@[j]@,
                ),
            forall|j: int|
                0 <= j < i && (#[trigger] out@[j]) is Ok ==> out@[j]->Ok_0.lib
                    == &deps.dependencies@[j],
        decreases n - i,
    {
        let status = check_dependency(&deps.dependencies[i], &records[i]);
        out.push(status);
        i += 1;
    }
    assert(outcomes_model(out@) =~= reconcile(deps@, records_model(records@)));
    Ok(out)
}

/// Whether an entry was classified, and as correctly installed.
pub open spec fn is_installed(outcome: Result<StatusModel, InspectError>) -> bool {
    outcome matches Ok(status) && status.install_type == InstallType::AlreadyInstalled
}

/// How many entries are correctly installed.
pub open spec fn count_installed(outcomes: Seq<Result<StatusModel, InspectError>>) -> nat
    decreases outcomes.len(),
{
    if outcomes.len() == 0 {
        0
    } else {
        count_installed(outcomes.drop_last()) + if is_installed(outcomes.last()) {
            1nat
        } else {
            0nat
        }
    }
}

/// The figures of a run: how many dependencies are correctly installed, out of how many.
#[derive(Debug, PartialEq, Eq, Clone, Copy, Structural)]
pub struct CheckSummary {
    pub installed: usize,
    pub total: usize,
}

/// The sentence that reports the figures of a run.
pub open spec fn summary_text(installed: nat, total: nat) -> Seq<char> {
    crate::text::decimal(installed) + " / "@ + crate::text::decimal(total)
        + " dependencie(s) are installed at the correct versions"@
}

impl CheckSummary {
    pub fn line(&self) -> (r: String)
        ensures
            r@ == summary_text(self.installed as nat, self.total as nat),
    {
        let mut out = crate::text::decimal_string(self.installed);
        out.append(" / ");
        out.append(crate::text::decimal_string(self.total).as_str());
        out.append(" dependencie(s) are installed at the correct versions");
        out
    }
}

/// Counts the correctly installed entries. Entries that failed count towards the total
/// and not towards the installed.
pub fn summarize(outcomes: &Vec<Result<HaxelibStatus<'_>, InspectError>>) -> (r: CheckSummary)
    ensures
        r.total == outcomes@.len(),
        r.installed == count_installed(outcomes_model(outcomes@)),
        r.installed <= r.total,
{
    let n = outcomes.len();
    let ghost model = outcomes_model(outcomes@);
    let mut installed: usize = 0;
    let mut i: usize = 0;
    while i < n
        invariant
            n == outcomes@.len(),
            model == outcomes_model(outcomes@),
            i <= n,
            installed <= i,
            installed == count_installed(model.subrange(0, i as int)),
        decreases n - i,
    {
        assert(model.subrange(0, i + 1).drop_last() == model.subrange(0, i as int));
        assert(model.subrange(0, i + 1).last() == outcome_model(outcomes@[i as int]));
        let counts = match &outcomes[i] {
            Ok(status) => status.install_type == InstallType::AlreadyInstalled,
            Err(_) => false,
        };
        if counts {
            installed += 1;
        }
        i += 1;
    }
    assert(model.subrange(0, n as int) == model);
    CheckSummary { installed, total: n }
}

/// Classifies every dependency and reports the figures of the run.
pub fn check(deps: &Dependancies, records: &Vec<LocalRecord>) -> (r: Result<
    CheckSummary,
    InspectError,
>)
    ensures
        r is Ok <==> deps@.len() == records@.len(),
        r is Err ==> r->Err_0 == InspectError::RecordCount,
        r is Ok ==> r->Ok_0.total == deps@.len() && r->Ok_0.installed == count_installed(
            reconcile(deps@, records_model(records@)),
        ),
{
    match compare_haxelib_to_hmm(deps, records) {
        Ok(outcomes) => Ok(summarize(&outcomes)),
        Err(e) => Err(e),
    }
}

/// The text of an optional value as reports show it.
pub open spec fn shown(o: Option<Seq<char>>) -> Seq<char> {
    match o {
        Some(s) => s,
        None => "None"@,
    }
}

/// The line that sets what is expected beside what is installed.
pub open spec fn expectation_line(status: StatusModel) -> Seq<char> {
    "Expected: "@ + shown(status.wants) + " | Installed: "@ + shown(status.installed) + "\n"@
}

/// What is reported of one classified dependency: nothing where it is correctly
/// installed; otherwise a line that names it and says what is wrong, followed, where
/// something should be installed, by the line of expectation.
pub open spec fn status_report(status: StatusModel) -> Seq<char> {
    match status.install_type {
        InstallType::Missing => status.lib.name + " is not installed\n"@ + expectation_line(
            status,
        ),
        InstallType::MissingGit => status.lib.name + " is not cloned / installed (via git)\n"@
            + expectation_line(status),
        InstallType::Outdated => status.lib.name + " is not at the correct version\n"@
            + expectation_line(status),
        InstallType::AlreadyInstalled => Seq::empty(),
        InstallType::Conflict => status.lib.name + " has local changes\n"@,
        InstallType::NotImplemented => status.lib.name + " cannot be checked: "@
            + status.lib.haxelib_type.label_spec() + " is not implemented\n"@,
    }
}

fn show(o: &Option<String>) -> (r: String)
    ensures
        r@ == shown(opt_text(*o)),
{
    match o {
        Some(s) => s.clone(),
        None => String::from_str("None"),
    }
}

fn expectation<'a>(status: &HaxelibStatus<'a>) -> (r: String)
    ensures
        r@ == expectation_line(status@),
{
    let mut out = String::from_str("Expected: ");
    out.append(show(&status.wants).as_str());
    out.append(" | Installed: ");
    out.append(show(&status.installed).as_str());
    out.append("\n");
    out
}

/// The report of one classified dependency, as plain text ready to be printed.
pub fn print_install_status<'a>(haxelib_status: &HaxelibStatus<'a>) -> (r: String)
    ensures
        r@ == status_report(haxelib_status@),
{
    let mut out = haxelib_status.lib.name.clone();
    match haxelib_status.install_type {
        InstallType::Missing => {
            out.append(" is not installed\n");
            let line = expectation(haxelib_status);
            out.append(line.as_str());
            assert(out@ =~= status_report(haxelib_status@));
        },
        InstallType::MissingGit => {
            out.append(" is not cloned / installed (via git)\n");
            let line = expectation(haxelib_status);
            out.append(line.as_str());
            assert(out@ =~= status_report(haxelib_status@));
        },
        InstallType::Outdated => {
            out.append(" is not at the correct version\n");
            let line = expectation(haxelib_status);
            out.append(line.as_str());
            assert(out@ =~= status_report(haxelib_status@));
        },
        InstallType::AlreadyInstalled => {
            out = String::new();
        },
        InstallType::Conflict => {
            out.append(" has local changes\n");
        },
        InstallType::NotImplemented => {
            out.append(" cannot be checked: ");
            out.append(haxelib_status.lib.haxelib_type.label());
            out.append(" is not implemented\n");
        },
    }
    out
}

/// What is reported of a dependency that could not be classified: its name, what went
/// wrong, and what the manifest asks for.
pub open spec fn failure_report(lib: HaxelibModel, error: InspectError) -> Seq<char> {
    lib.name + " could not be checked: "@ + error.reason_spec() + "\nExpected: "@ + shown(
        lib.wants(),
    ) + "\n"@
}

/// The report of a dependency that could not be classified, as plain text ready to be
/// printed.
pub fn print_check_failure(lib: &Haxelib, error: InspectError) -> (r: String)
    ensures
        r@ == failure_report(lib@, error),
{
    let mut out = lib.name.clone();
    out.append(" could not be checked: ");
    out.append(error.reason());
    out.append("\nExpected: ");
    out.append(show(&get_wants(lib)).as_str());
    out.append("\n");
    out
}

/// A dependency whose pins match its source is never refused for want of a pin: what
/// `Dependancies::validate` accepts, an inspection classifies or fails on what is on disk.
pub proof fn lemma_well_formed_is_pinned(dep: HaxelibModel, record: LocalRecordModel)
    requires
        dep.well_formed(),
    ensures
        pinned(dep),
        inspect(dep, record) != Err::<StatusModel, InspectError>(InspectError::MissingPin),
        inspect(dep, record) != Err::<StatusModel, InspectError>(InspectError::RecordCount),
{
}

/// A registry dependency whose marker holds anything but the pinned version, character
/// for character, is outdated, and what the marker holds is reported as installed.
/// Nothing is trimmed: a trailing newline in the marker is a mismatch.
pub proof fn lemma_marker_mismatch_is_outdated(
    dep: HaxelibModel,
    dir: RecordDirModel,
    pinned_version: Seq<char>,
    found: Seq<char>,
)
    requires
        dep.haxelib_type == HaxelibType::Haxelib,
        dep.version == Some(pinned_version),
        effective_marker(dir.dev_marker, dir.current_marker) == MarkerModel::Content(found),
        found != pinned_version,
    ensures
        inspect(dep, LocalRecordModel::Present(dir)) == Ok::<StatusModel, InspectError>(
            status_of(dep, InstallType::Outdated, Some(pinned_version), Some(found)),
        ),
{
}

/// A clean working copy satisfies a git dependency's pin in each of four ways, any one
/// of which is enough: the pin is the full id of the commit that is checked out; the pin
/// abbreviates that id; the pin is the branch that is checked out; the pin is a branch
/// or tag that resolves to that commit.
pub proof fn lemma_pin_is_met(
    dep: HaxelibModel,
    dir: RecordDirModel,
    copy: WorkingCopyModel,
    pin: Seq<char>,
    head: Seq<char>,
)
    requires
        dep.haxelib_type == HaxelibType::Git,
        dep.vcs_ref == Some(pin),
        dir.repository == RepositoryModel::Open(copy),
        copy.head == Some(head),
        copy.dirty == Some(false),
        ({
            ||| pin == head
            ||| (abbreviation(pin) is Some && abbreviation(pin)->0.is_prefix_of(head))
            ||| copy.branch == Some(pin)
            ||| copy.pinned_target == Some(head)
        }),
    ensures
        inspect(dep, LocalRecordModel::Present(dir)) == Ok::<StatusModel, InspectError>(
            status_of(dep, InstallType::AlreadyInstalled, None, None),
        ),
{
}

/// The way by abbreviation, spelled out: a pin of four to forty lower-case hexadecimal
/// digits that the checked-out commit's id begins with is met.
pub proof fn lemma_abbreviated_pin_is_met(
    dep: HaxelibModel,
    dir: RecordDirModel,
    copy: WorkingCopyModel,
    pin: Seq<char>,
    head: Seq<char>,
)
    requires
        dep.haxelib_type == HaxelibType::Git,
        dep.vcs_ref == Some(pin),
        dir.repository == RepositoryModel::Open(copy),
        copy.head == Some(head),
        copy.dirty == Some(false),
        MIN_HEX_LEN <= pin.len() <= FULL_HEX_LEN,
        lower_case_hex(pin),
        pin.is_prefix_of(head),
    ensures
        inspect(dep, LocalRecordModel::Present(dir)) == Ok::<StatusModel, InspectError>(
            status_of(dep, InstallType::AlreadyInstalled, None, None),
        ),
{
    lemma_lower_case_reads_as_itself(pin);
    lemma_pin_is_met(dep, dir, copy, pin, head);
}

/// Two passes over the same manifest and the same observations classify alike: the
/// result of a pass is a function of the two and of nothing else.
pub proof fn lemma_reconcile_is_repeatable(
    deps: Seq<HaxelibModel>,
    records: Seq<LocalRecordModel>,
    first: Seq<Result<StatusModel, InspectError>>,
    second: Seq<Result<StatusModel, InspectError>>,
)
    requires
        first == reconcile(deps, records),
        second == reconcile(deps, records),
    ensures
        first == second,
        first.len() == deps.len(),
{
}

/// An entry's classification is that of the entry alone: changing the other entries,
/// or what was observed for them, leaves it as it is.
pub proof fn lemma_entries_are_independent(
    deps: Seq<HaxelibModel>,
    records: Seq<LocalRecordModel>,
    other_deps: Seq<HaxelibModel>,
    other_records: Seq<LocalRecordModel>,
    i: int,
)
    requires
        0 <= i < deps.len(),
        0 <= i < other_deps.len(),
        deps.len() == records.len(),
        other_deps.len() == other_records.len(),
        deps[i] == other_deps[i],
        records[i] == other_records[i],
    ensures
        reconcile(deps, records)[i] == reconcile(other_deps, other_records)[i],
        reconcile(deps, records)[i] == inspect(deps[i], records[i]),
{
}

} // verus!

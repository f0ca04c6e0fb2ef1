use vstd::prelude::*;
use vstd::string::*;
use crate::commands::check_command::{
    compare_haxelib_to_hmm, inspect, outcomes_model, reconcile, records_model, status_of,
    HaxelibStatus, InspectError, InstallType, LocalRecord, LocalRecordModel, MarkerModel,
    RecordDirModel, RepositoryModel, StatusModel,
};
use crate::commands::git_id::{full_id, full_object_id};
use crate::hmm::dependencies::Dependancies;
use crate::hmm::haxelib::{opt_text, Haxelib, HaxelibModel, HaxelibType};
use crate::hmm::record::{record_dir, record_dir_spec};
use crate::text::{dots_to_commas, replace_dots, starts_with};

verus! {

/// What is to be done about one classified dependency.
#[derive(Debug, PartialEq, Eq, Clone, Copy, Structural)]
pub enum InstallAction {
    /// The pin is installed: nothing is done.
    Nothing,
    /// Download the pinned release from the registry and unpack it.
    Download,
    /// Clone the remote into the record directory.
    Clone,
    /// Bring the existing working copy to the pin.
    Checkout,
    /// There are local changes: nothing is touched, the conflict is reported.
    ReportConflict,
    /// The source has no installation strategy: nothing is done.
    Unsupported,
    /// The dependency could not be classified: it is left alone.
    Skip,
}

/// Why the installation of one dependency cannot be planned or go on.
#[derive(Debug, PartialEq, Eq, Clone, Copy, Structural)]
pub enum InstallError {
    /// A registry dependency without a version.
    MissingVersion,
    /// A git dependency without a remote.
    MissingUrl,
    /// A git dependency whose remote is no address that can be cloned from.
    InvalidUrl,
    /// A git dependency without a reference to bring it to.
    MissingRef,
    /// The registry's answer does not say how long the archive is.
    MissingContentLength,
    /// A directory could not be created, and not because it is there already.
    CreateDirFailed,
}

/// How the creation of a directory ended.
#[derive(Debug, PartialEq, Eq, Clone, Copy, Structural)]
pub enum DirCreation {
    Created,
    /// Nothing was created: the directory is there already.
    AlreadyExists,
    /// Nothing was created, for any other reason.
    Failed,
}

/// Decides whether an installation goes on after a directory was to be created. A
/// directory that is there already is as good as one that was created.
pub fn after_create_dir(outcome: DirCreation) -> (r: Result<(), InstallError>)
    ensures
        r is Ok <==> outcome != DirCreation::Failed,
        r is Err ==> r->Err_0 == InstallError::CreateDirFailed,
{
    match outcome {
        DirCreation::Created => Ok(()),
        DirCreation::AlreadyExists => Ok(()),
        DirCreation::Failed => Err(InstallError::CreateDirFailed),
    }
}

/// The action for a classified dependency, by what is wrong and where it comes from.
pub open spec fn action_for(status: StatusModel) -> InstallAction {
    match status.install_type {
        InstallType::AlreadyInstalled => InstallAction::Nothing,
        InstallType::Conflict => InstallAction::ReportConflict,
        InstallType::NotImplemented => InstallAction::Unsupported,
        InstallType::Missing => match status.lib.haxelib_type {
            HaxelibType::Haxelib => InstallAction::Download,
            HaxelibType::Git => InstallAction::Clone,
            _ => InstallAction::Unsupported,
        },
        InstallType::MissingGit => match status.lib.haxelib_type {
            HaxelibType::Git => InstallAction::Clone,
            _ => InstallAction::Unsupported,
        },
        InstallType::Outdated => match status.lib.haxelib_type {
            HaxelibType::Haxelib => InstallAction::Download,
            HaxelibType::Git => InstallAction::Checkout,
            _ => InstallAction::Unsupported,
        },
    }
}

/// Whether carrying out the action writes below the record directory.
pub open spec fn writes_to_record(action: InstallAction) -> bool {
    action == InstallAction::Download || action == InstallAction::Clone || action
        == InstallAction::Checkout
}

/// The action for an entry of a pass: that of its classification, or `Skip` where it
/// has none.
pub open spec fn action_for_outcome(outcome: Result<StatusModel, InspectError>) -> InstallAction {
    match outcome {
        Ok(status) => action_for(status),
        Err(_) => InstallAction::Skip,
    }
}

/// The actions for a whole pass, entry by entry.
pub open spec fn plan(outcomes: Seq<Result<StatusModel, InspectError>>) -> Seq<InstallAction> {
    Seq::new(outcomes.len(), |i: int| action_for_outcome(outcomes[i]))
}

/// Chooses what to do about one classified dependency.
pub fn handle_install<'a>(haxelib_status: &HaxelibStatus<'a>) -> (r: InstallAction)
    ensures
        r == action_for(haxelib_status@),
{
    match haxelib_status.install_type {
        InstallType::AlreadyInstalled => InstallAction::Nothing,
        InstallType::Conflict => InstallAction::ReportConflict,
        InstallType::NotImplemented => InstallAction::Unsupported,
        InstallType::Missing => match haxelib_status.lib.haxelib_type {
            HaxelibType::Haxelib => InstallAction::Download,
            HaxelibType::Git => InstallAction::Clone,
            _ => InstallAction::Unsupported,
        },
        InstallType::MissingGit => match haxelib_status.lib.haxelib_type {
            HaxelibType::Git => InstallAction::Clone,
            _ => InstallAction::Unsupported,
        },
        InstallType::Outdated => match haxelib_status.lib.haxelib_type {
            HaxelibType::Haxelib => InstallAction::Download,
            HaxelibType::Git => InstallAction::Checkout,
            _ => InstallAction::Unsupported,
        },
    }
}

/// Chooses what to do about every entry of a pass, in the manifest's order.
pub fn plan_installs(outcomes: &Vec<Result<HaxelibStatus<'_>, InspectError>>) -> (r: Vec<
    InstallAction,
>)
    ensures
        r@ == plan(outcomes_model(outcomes@)),
{
    let n = outcomes.len();
    let mut out: Vec<InstallAction> = Vec::new();
    let mut i: usize = 0;
    while i < n
        invariant
            n == outcomes@.len(),
            i <= n,
            out@.len() == i,
            forall|j: int|
                0 <= j < i ==> #[trigger] out@[j] == action_for_outcome(
                    outcomes_model(outcomes@)[j],
                ),
        decreases n - i,
    {
        let action = match &outcomes[i] {
            Ok(status) => handle_install(status),
            Err(_) => InstallAction::Skip,
        };
        out.push(action);
        i += 1;
    }
    assert(out@ =~= plan(outcomes_model(outcomes@)));
    out
}

/// Classifies every dependency of the manifest against what was observed for it, and
/// chooses what to do about each.
pub fn install_from_hmm(deps: &Dependancies, records: &Vec<LocalRecord>) -> (r: Result<
    Vec<InstallAction>,
    InspectError,
>)
    ensures
        r is Ok <==> deps@.len() == records@.len(),
        r is Err ==> r->Err_0 == InspectError::RecordCount,
        r is Ok ==> r->Ok_0@ == plan(reconcile(deps@, records_model(records@))),
{
    match compare_haxelib_to_hmm(deps, records) {
        Ok(outcomes) => Ok(plan_installs(&outcomes)),
        Err(e) => Err(e),
    }
}

/// The marker file of a record directory, and what it is to hold.
#[derive(Debug, PartialEq, Eq)]
pub struct CurrentFile {
    pub path: String,
    pub content: String,
}

/// Plans the marker of the record directory `path`: the file `.current` in it, holding
/// `content` and nothing else.
pub fn create_current_file(path: &str, content: &str) -> (r: CurrentFile)
    ensures
        r.path@ == path@ + "/.current"@,
        r.content@ == content@,
{
    let mut file = String::from_str(path);
    file.append("/.current");
    CurrentFile { path: file, content: String::from_str(content) }
}

/// Where the registry serves the archive of a release.
pub open spec fn registry_url(name: Seq<char>, version: Seq<char>) -> Seq<char> {
    "https://lib.haxe.org/p/"@ + name + "/"@ + version + "/download"@
}

/// What the installation of a release from the registry works on: the places that its
/// steps read and write, and what is written there.
#[derive(Debug, PartialEq, Eq)]
pub struct RegistryInstall {
    /// Where the archive is fetched from.
    pub url: String,
    /// The name of the temporary file that receives the archive.
    pub archive_name: String,
    /// The record directory, to be created unless it exists.
    pub record_dir: String,
    /// The marker to be written. It holds the version.
    pub marker: CurrentFile,
    /// The directory that the archive is unpacked into.
    pub unpack_dir: String,
}

/// Plans the installation of a registry dependency.
pub fn install_from_haxelib(haxelib: &Haxelib) -> (r: Result<RegistryInstall, InstallError>)
    ensures
        r is Ok <==> haxelib.version is Some,
        r is Err ==> r->Err_0 == InstallError::MissingVersion,
        r matches Ok(p) ==> {
            let name = haxelib.name@;
            let version = haxelib.version->0@;
            &&& p.url@ == registry_url(name, version)
            &&& p.archive_name@ == name + ".zip"@
            &&& p.record_dir@ == record_dir_spec(name)
            &&& p.marker.path@ == record_dir_spec(name) + "/.current"@
            &&& p.marker.content@ == version
            &&& p.unpack_dir@ == record_dir_spec(name) + "/"@ + dots_to_commas(version)
        },
{
    match &haxelib.version {
        None => Err(InstallError::MissingVersion),
        Some(version) => {
            let mut url = String::from_str("https://lib.haxe.org/p/");
            url.append(haxelib.name.as_str());
            url.append("/");
            url.append(version.as_str());
            url.append("/download");
            let mut archive_name = haxelib.name.clone();
            archive_name.append(".zip");
            let dir = record_dir(haxelib.name.as_str());
            let marker = create_current_file(dir.as_str(), version.as_str());
            let mut unpack_dir = dir.clone();
            unpack_dir.append("/");
            unpack_dir.append(replace_dots(version.as_str()).as_str());
            Ok(
                RegistryInstall {
                    url,
                    archive_name,
                    record_dir: dir,
                    marker,
                    unpack_dir,
                },
            )
        },
    }
}

/// The length of the archive, which the registry's answer has to state.
pub fn download_size(content_length: Option<u64>) -> (r: Result<u64, InstallError>)
    ensures
        match content_length {
            Some(n) => r == Ok::<u64, InstallError>(n),
            None => r == Err::<u64, InstallError>(InstallError::MissingContentLength),
        },
{
    match content_length {
        Some(n) => Ok(n),
        None => Err(InstallError::MissingContentLength),
    }
}

/// How far a download has come after one more chunk: the sum, held at the total.
pub open spec fn progress_after(downloaded: nat, chunk: nat, total: nat) -> nat {
    if downloaded + chunk < total {
        downloaded + chunk
    } else {
        total
    }
}

/// Counts one more chunk into the progress of a download. The count never passes the
/// total, however long the chunks turn out to be.
pub fn advance_progress(downloaded: u64, chunk_len: u64, total_size: u64) -> (r: u64)
    ensures
        r == progress_after(downloaded as nat, chunk_len as nat, total_size as nat),
        r <= total_size,
{
    match downloaded.checked_add(chunk_len) {
        Some(sum) => if sum < total_size {
            sum
        } else {
            total_size
        },
        None => total_size,
    }
}

/// The steps of installing a release from the registry. Each is one piece of work for the
/// caller, who reports whether it succeeded and is told the next.
#[derive(Debug, PartialEq, Eq, Clone, Copy, Structural)]
pub enum RegistryStep {
    /// Download the archive into the temporary file.
    Fetch,
    /// Create the record directory, unless it is there.
    CreateRecordDir,
    /// Write the marker.
    WriteMarker,
    /// Unpack the archive.
    Unpack,
    /// Remove the marker and what was unpacked: the installation failed half-way, and
    /// nothing may be left that looks like an installed release.
    RemovePartial,
    /// Remove the temporary file. `failed` says whether the installation failed before.
    RemoveArchive { failed: bool },
    /// The release is installed.
    Done,
    /// The release is not installed, and nothing is left of the attempt.
    Failed,
}

/// The step that follows `step`, by whether `step` succeeded.
///
/// The work goes on while it succeeds. A failure before anything was written below the
/// record directory leads straight to the removal of the temporary file; a later one
/// leads there by way of `RemovePartial`. The temporary file is removed in any case.
pub open spec fn step_after(step: RegistryStep, succeeded: bool) -> RegistryStep {
    match step {
        RegistryStep::Fetch => if succeeded {
            RegistryStep::CreateRecordDir
        } else {
            RegistryStep::RemoveArchive { failed: true }
        },
        RegistryStep::CreateRecordDir => if succeeded {
            RegistryStep::WriteMarker
        } else {
            RegistryStep::RemoveArchive { failed: true }
        },
        RegistryStep::WriteMarker => if succeeded {
            RegistryStep::Unpack
        } else {
            RegistryStep::RemovePartial
        },
        RegistryStep::Unpack => if succeeded {
            RegistryStep::RemoveArchive { failed: false }
        } else {
            RegistryStep::RemovePartial
        },
        RegistryStep::RemovePartial => RegistryStep::RemoveArchive { failed: true },
        RegistryStep::RemoveArchive { failed } => if succeeded && !failed {
            RegistryStep::Done
        } else {
            RegistryStep::Failed
        },
        RegistryStep::Done => RegistryStep::Done,
        RegistryStep::Failed => RegistryStep::Failed,
    }
}

/// Whether there is nothing more to do.
pub open spec fn is_final(step: RegistryStep) -> bool {
    step == RegistryStep::Done || step == RegistryStep::Failed
}

/// An upper bound on the steps that are still to come, `step` included.
pub open spec fn steps_left(step: RegistryStep) -> nat {
    match step {
        RegistryStep::Fetch => 6,
        RegistryStep::CreateRecordDir => 5,
        RegistryStep::WriteMarker => 4,
        RegistryStep::Unpack => 3,
        RegistryStep::RemovePartial => 2,
        RegistryStep::RemoveArchive { .. } => 1,
        RegistryStep::Done => 0,
        RegistryStep::Failed => 0,
    }
}

/// Where an installation stands after the steps from `step` on ended as `outcomes` say,
/// one after the other.
pub open spec fn run_steps(step: RegistryStep, outcomes: Seq<bool>) -> RegistryStep
    decreases outcomes.len(),
{
    if outcomes.len() == 0 {
        step
    } else {
        run_steps(step_after(step, outcomes[0]), outcomes.drop_first())
    }
}

/// The first step of an installation from the registry.
pub fn first_registry_step() -> (r: RegistryStep)
    ensures
        r == RegistryStep::Fetch,
{
    RegistryStep::Fetch
}

/// Tells the step that follows `step`.
pub fn next_registry_step(step: RegistryStep, succeeded: bool) -> (r: RegistryStep)
    ensures
        r == step_after(step, succeeded),
        !is_final(step) ==> steps_left(r) < steps_left(step),
{
    match step {
        RegistryStep::Fetch => if succeeded {
            RegistryStep::CreateRecordDir
        } else {
            RegistryStep::RemoveArchive { failed: true }
        },
        RegistryStep::CreateRecordDir => if succeeded {
            RegistryStep::WriteMarker
        } else {
            RegistryStep::RemoveArchive { failed: true }
        },
        RegistryStep::WriteMarker => if succeeded {
            RegistryStep::Unpack
        } else {
            RegistryStep::RemovePartial
        },
        RegistryStep::Unpack => if succeeded {
            RegistryStep::RemoveArchive { failed: false }
        } else {
            RegistryStep::RemovePartial
        },
        RegistryStep::RemovePartial => RegistryStep::RemoveArchive { failed: true },
        RegistryStep::RemoveArchive { failed } => if succeeded && !failed {
            RegistryStep::Done
        } else {
            RegistryStep::Failed
        },
        RegistryStep::Done => RegistryStep::Done,
        RegistryStep::Failed => RegistryStep::Failed,
    }
}

/// Every installation comes to an end: after as many steps as `steps_left` allows, it is
/// done or has failed, however the steps went.
pub proof fn lemma_installation_ends(step: RegistryStep, outcomes: Seq<bool>)
    requires
        outcomes.len() >= steps_left(step),
    ensures
        is_final(run_steps(step, outcomes)),
    decreases outcomes.len(),
{
    if outcomes.len() > 0 {
        lemma_installation_ends(step_after(step, outcomes[0]), outcomes.drop_first());
    }
}

/// An installation is done only where the download, the record directory, the marker,
/// the unpacking and the removal of the temporary file all succeeded, in that order.
pub proof fn lemma_done_needs_every_step(outcomes: Seq<bool>)
    requires
        run_steps(RegistryStep::Fetch, outcomes) == RegistryStep::Done,
    ensures
        outcomes.len() >= 5,
        outcomes[0] && outcomes[1] && outcomes[2] && outcomes[3] && outcomes[4],
{
    reveal_with_fuel(run_steps, 6);
    if outcomes.len() >= 1 {
        let after_fetch = outcomes.drop_first();
        lemma_archive_of_failure_never_done(after_fetch);
        if after_fetch.len() >= 1 {
            let after_dir = after_fetch.drop_first();
            lemma_archive_of_failure_never_done(after_dir);
            if after_dir.len() >= 1 {
                let after_marker = after_dir.drop_first();
                lemma_partial_never_done(after_marker);
                if after_marker.len() >= 1 {
                    let after_unpack = after_marker.drop_first();
                    lemma_partial_never_done(after_unpack);
                    if after_unpack.len() >= 1 {
                        lemma_failed_stays_failed(after_unpack.drop_first());
                    }
                }
            }
        }
    }
}

/// Once failed, an installation stays failed.
pub proof fn lemma_failed_stays_failed(outcomes: Seq<bool>)
    ensures
        run_steps(RegistryStep::Failed, outcomes) == RegistryStep::Failed,
    decreases outcomes.len(),
{
    if outcomes.len() > 0 {
        lemma_failed_stays_failed(outcomes.drop_first());
    }
}

/// The removal of the temporary file after a failure never ends in `Done`.
pub proof fn lemma_archive_of_failure_never_done(outcomes: Seq<bool>)
    ensures
        run_steps(RegistryStep::RemoveArchive { failed: true }, outcomes) != RegistryStep::Done,
{
    reveal_with_fuel(run_steps, 2);
    if outcomes.len() > 0 {
        lemma_failed_stays_failed(outcomes.drop_first());
    }
}

/// An installation that had to remove what it had written never ends in `Done`.
pub proof fn lemma_partial_never_done(outcomes: Seq<bool>)
    ensures
        run_steps(RegistryStep::RemovePartial, outcomes) != RegistryStep::Done,
{
    reveal_with_fuel(run_steps, 2);
    if outcomes.len() > 0 {
        lemma_archive_of_failure_never_done(outcomes.drop_first());
    }
}

/// Where the marker was written and the unpacking fails, the very next step removes the
/// marker again: no half-unpacked release is left to pass for an installed one.
pub proof fn lemma_failed_unpacking_is_undone()
    ensures
        step_after(RegistryStep::Unpack, false) == RegistryStep::RemovePartial,
        step_after(RegistryStep::WriteMarker, false) == RegistryStep::RemovePartial,
        forall|succeeded: bool| #[trigger]
            step_after(RegistryStep::RemovePartial, succeeded) == (RegistryStep::RemoveArchive {
                failed: true,
            }),
{
}

/// The remote without a leading `https://` or `http://`.
pub open spec fn without_scheme(url: Seq<char>) -> Seq<char> {
    if "https://"@.is_prefix_of(url) {
        url.subrange(8, url.len() as int)
    } else if "http://"@.is_prefix_of(url) {
        url.subrange(7, url.len() as int)
    } else {
        url
    }
}

/// The remote as it is cloned from: always over `https`.
pub open spec fn secure_url(url: Seq<char>) -> Seq<char> {
    "https://"@ + without_scheme(url)
}

pub fn normalize_remote(url: &str) -> (r: String)
    ensures
        r@ == secure_url(url@),
{
    proof {
        reveal_strlit("https://");
        reveal_strlit("http://");
    }
    let n = url.unicode_len();
    let rest = if starts_with(url, "https://") {
        url.substring_char(8, n)
    } else if starts_with(url, "http://") {
        url.substring_char(7, n)
    } else {
        url
    };
    let mut out = String::from_str("https://");
    out.append(rest);
    out
}

/// Whether `gix::url::parse` reads a text as the address of a remote.
pub uninterp spec fn parses_as_remote(url: Seq<char>) -> bool;

/// Calls `gix::url::parse` and tells whether it succeeded.
///
/// Trusted: whether gix reads a text that begins with `https://` as an address depends
/// on the text alone; `parses_as_remote` is the name of that. Texts without a scheme
/// are read differently from one platform to the next, and none is handed in.
#[verifier::external_body]
fn reads_as_remote(url: &str) -> (r: bool)
    requires
        "https://"@.is_prefix_of(url@),
    ensures
        r == parses_as_remote(url@),
{
    gix::url::parse(url).is_ok()
}

/// What a fresh clone is set to.
#[derive(Debug, PartialEq, Eq)]
pub enum CheckoutTarget {
    /// Whatever the remote has as its default branch.
    DefaultBranch,
    /// The commit with this full id, written in lower case.
    Commit(String),
    /// The branch or tag of this name.
    Reference(String),
}

pub ghost enum CheckoutTargetModel {
    DefaultBranch,
    Commit(Seq<char>),
    Reference(Seq<char>),
}

impl View for CheckoutTarget {
    type V = CheckoutTargetModel;

    open spec fn view(&self) -> CheckoutTargetModel {
        match self {
            CheckoutTarget::DefaultBranch => CheckoutTargetModel::DefaultBranch,
            CheckoutTarget::Commit(id) => CheckoutTargetModel::Commit(id@),
            CheckoutTarget::Reference(name) => CheckoutTargetModel::Reference(name@),
        }
    }
}

/// What a pin asks the clone to be set to: nothing without a pin; the commit where the
/// pin is a full commit id; otherwise the branch or tag of that name.
pub open spec fn target_of(pin: Option<Seq<char>>) -> CheckoutTargetModel {
    match pin {
        None => CheckoutTargetModel::DefaultBranch,
        Some(p) => match full_id(p) {
            Some(id) => CheckoutTargetModel::Commit(id),
            None => CheckoutTargetModel::Reference(p),
        },
    }
}

pub fn checkout_target(pin: &Option<String>) -> (r: CheckoutTarget)
    ensures
        r@ == target_of(opt_text(*pin)),
{
    match pin {
        None => CheckoutTarget::DefaultBranch,
        Some(p) => match full_object_id(p.as_str()) {
            Some(id) => CheckoutTarget::Commit(id),
            None => CheckoutTarget::Reference(p.clone()),
        },
    }
}

/// What the installation of a git dependency does, in the order of the fields.
#[derive(Debug, PartialEq, Eq)]
pub struct GitInstall {
    /// The record directory, to be created unless it exists.
    pub record_dir: String,
    /// The marker to be written. It holds the word `git`, never a version.
    pub marker: CurrentFile,
    /// The directory of the working copy, to be created unless it exists.
    pub clone_dir: String,
    /// Whether a working copy that is already there is removed first.
    pub replace_existing: bool,
    /// The remote to clone from.
    pub remote: String,
    /// What the clone is then set to.
    pub target: CheckoutTarget,
}

/// What the plan for a git dependency holds.
pub open spec fn git_plan_is(
    p: GitInstall,
    dep: HaxelibModel,
    remote: Seq<char>,
    replace_existing: bool,
) -> bool {
    &&& p.record_dir@ == record_dir_spec(dep.name)
    &&& p.marker.path@ == record_dir_spec(dep.name) + "/.current"@
    &&& p.marker.content@ == "git"@
    &&& p.clone_dir@ == record_dir_spec(dep.name) + "/git"@
    &&& p.replace_existing == replace_existing
    &&& p.remote@ == remote
    &&& p.target@ == target_of(dep.vcs_ref)
}

/// Plans the installation of a git dependency from `remote`, given whether `remote` was
/// accepted as an address. An address that was not accepted is refused before anything
/// is planned.
pub fn plan_git_install(
    haxelib: &Haxelib,
    remote: String,
    accepted: bool,
    replace_existing: bool,
) -> (r: Result<GitInstall, InstallError>)
    ensures
        r is Ok <==> accepted,
        r is Err ==> r->Err_0 == InstallError::InvalidUrl,
        r matches Ok(p) ==> git_plan_is(p, haxelib@, remote@, replace_existing),
{
    if !accepted {
        return Err(InstallError::InvalidUrl);
    }
    let dir = record_dir(haxelib.name.as_str());
    let marker = create_current_file(dir.as_str(), "git");
    let mut clone_dir = dir.clone();
    clone_dir.append("/git");
    Ok(
        GitInstall {
            record_dir: dir,
            marker,
            clone_dir,
            replace_existing,
            remote,
            target: checkout_target(&haxelib.vcs_ref),
        },
    )
}

/// What planning the installation of a git dependency comes to: no plan without a
/// remote, none with a remote that is no address, and otherwise the plan to clone from
/// the remote over `https`.
pub open spec fn git_plan_outcome(
    r: Result<GitInstall, InstallError>,
    dep: HaxelibModel,
    replace_existing: bool,
) -> bool {
    match dep.url {
        None => r == Err::<GitInstall, InstallError>(InstallError::MissingUrl),
        Some(url) => if parses_as_remote(secure_url(url)) {
            r matches Ok(p) && git_plan_is(p, dep, secure_url(url), replace_existing)
        } else {
            r == Err::<GitInstall, InstallError>(InstallError::InvalidUrl)
        },
    }
}

fn git_install(haxelib: &Haxelib, replace_existing: bool) -> (r: Result<GitInstall, InstallError>)
    ensures
        git_plan_outcome(r, haxelib@, replace_existing),
{
    match &haxelib.url {
        None => Err(InstallError::MissingUrl),
        Some(url) => {
            let remote = normalize_remote(url.as_str());
            assert("https://"@.is_prefix_of(remote@)) by {
                assert(remote@.subrange(0, "https://"@.len() as int) =~= "https://"@);
            }
            let accepted = reads_as_remote(remote.as_str());
            plan_git_install(haxelib, remote, accepted, replace_existing)
        },
    }
}

/// Plans the installation of a git dependency by a fresh clone. Without a pin the clone
/// stays on the remote's default branch.
pub fn install_from_git_using_gix_clone(haxelib: &Haxelib) -> (r: Result<
    GitInstall,
    InstallError,
>)
    ensures
        git_plan_outcome(r, haxelib@, false),
{
    git_install(haxelib, false)
}

/// Plans bringing an outdated git dependency to its pin. The working copy that is there
/// is given up and cloned anew: slower than moving it in place, and never left half-way
/// between two commits.
///
/// There has to be a pin to bring it to; apart from that, the plan is made as for a
/// fresh clone.
pub fn install_from_git_using_gix_checkout(haxelib: &Haxelib) -> (r: Result<
    GitInstall,
    InstallError,
>)
    ensures
        haxelib.vcs_ref is None ==> r == Err::<GitInstall, InstallError>(
            InstallError::MissingRef,
        ),
        haxelib.vcs_ref is Some ==> git_plan_outcome(r, haxelib@, true),
{
    if haxelib.vcs_ref.is_none() {
        return Err(InstallError::MissingRef);
    }
    git_install(haxelib, true)
}

/// What an inspection finds in a record directory that was absent before the planned
/// release was installed into it: the marker with the version, and nothing else that
/// an inspection reads.
pub open spec fn record_after_registry_install(version: Seq<char>) -> LocalRecordModel {
    LocalRecordModel::Present(
        RecordDirModel {
            dev_marker: MarkerModel::Absent,
            current_marker: MarkerModel::Content(version),
            repository: RepositoryModel::Absent,
        },
    )
}

/// A registry dependency without a record directory is missing and is to be
/// downloaded; once the release is installed, it is classified as installed and
/// nothing more is to be done.
pub proof fn lemma_registry_install_settles(dep: HaxelibModel, version: Seq<char>)
    requires
        dep.haxelib_type == HaxelibType::Haxelib,
        dep.version == Some(version),
    ensures
        inspect(dep, LocalRecordModel::Absent) == Ok::<StatusModel, InspectError>(
            status_of(dep, InstallType::Missing, Some(version), None),
        ),
        action_for_outcome(inspect(dep, LocalRecordModel::Absent)) == InstallAction::Download,
        inspect(dep, record_after_registry_install(version)) == Ok::<StatusModel, InspectError>(
            status_of(dep, InstallType::AlreadyInstalled, None, None),
        ),
        action_for_outcome(inspect(dep, record_after_registry_install(version)))
            == InstallAction::Nothing,
{
}

/// Only a download, a clone and a checkout write below a record directory, and none of
/// them is ever chosen for a working copy with local changes, for a dependency that is
/// installed, or for one that could not be classified.
pub proof fn lemma_conflicts_are_left_alone(outcome: Result<StatusModel, InspectError>)
    requires
        outcome is Err || outcome->Ok_0.install_type == InstallType::Conflict
            || outcome->Ok_0.install_type == InstallType::AlreadyInstalled,
    ensures
        !writes_to_record(action_for_outcome(outcome)),
        outcome is Ok && outcome->Ok_0.install_type == InstallType::Conflict
            ==> action_for_outcome(outcome) == InstallAction::ReportConflict,
{
}

/// A dependency from a source without an installation strategy is reported and never
/// acted upon, however it was classified.
pub proof fn lemma_unsupported_sources_are_left_alone(status: StatusModel)
    requires
        status.lib.haxelib_type == HaxelibType::Dev || status.lib.haxelib_type
            == HaxelibType::Mecurial,
    ensures
        !writes_to_record(action_for(status)),
{
}

} // verus!

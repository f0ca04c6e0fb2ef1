use hmm_rs::commands::check_command::{
    check, check_dependency, compare_haxelib_to_hmm, get_wants, print_check_failure,
    print_install_status, summarize,
    InspectError, CheckSummary, HaxelibStatus, InstallType, LocalRecord, MarkerFile, RecordDir,
    Repository, WorkingCopy,
};
use hmm_rs::hmm::dependencies::Dependancies;
use hmm_rs::hmm::haxelib::{Haxelib, HaxelibType};

const HEAD: &str = "35e77c16d2b1f1b3b1c8a9e0f4d5c6b7a8091a2b";

fn registry(name: &str, version: &str) -> Haxelib {
    Haxelib {
        name: name.to_string(),
        haxelib_type: HaxelibType::Haxelib,
        vcs_ref: None,
        dir: None,
        url: None,
        version: Some(version.to_string()),
    }
}

fn git(name: &str, url: &str, pin: &str) -> Haxelib {
    Haxelib {
        name: name.to_string(),
        haxelib_type: HaxelibType::Git,
        vcs_ref: Some(pin.to_string()),
        dir: None,
        url: Some(url.to_string()),
        version: None,
    }
}

fn flixel() -> Haxelib {
    git("flixel", "https://github.com/haxeflixel/flixel", "master")
}

fn marker_dir(current: MarkerFile) -> LocalRecord {
    LocalRecord::Present(RecordDir {
        dev_marker: MarkerFile::Absent,
        current_marker: current,
        repository: Repository::Absent,
    })
}

fn working_copy(branch: Option<&str>, target: Option<&str>, dirty: bool) -> LocalRecord {
    LocalRecord::Present(RecordDir {
        dev_marker: MarkerFile::Absent,
        current_marker: MarkerFile::Content("git".to_string()),
        repository: Repository::Open(WorkingCopy {
            head: Some(HEAD.to_string()),
            branch: branch.map(|b| b.to_string()),
            pinned_target: target.map(|t| t.to_string()),
            dirty: Some(dirty),
        }),
    })
}

#[test]
fn test_get_wants() {
    let haxelib = Haxelib {
        name: "test".to_string(),
        haxelib_type: HaxelibType::Haxelib,
        vcs_ref: None,
        dir: None,
        url: None,
        version: Some("1.0.0".to_string()),
    };
    assert_eq!(get_wants(&haxelib), Some("1.0.0".to_string()));

    let haxelib = Haxelib {
        name: "test".to_string(),
        haxelib_type: HaxelibType::Git,
        vcs_ref: Some("master".to_string()),
        dir: None,
        url: None,
        version: None,
    };
    assert_eq!(get_wants(&haxelib), Some("master".to_string()));
}

#[test]
fn wants_nothing_of_a_dev_dependency() {
    let mut lib = registry("local", "1.0.0");
    lib.haxelib_type = HaxelibType::Dev;
    assert_eq!(get_wants(&lib), None);
}

#[test]
fn status_new_keeps_its_arguments() {
    let lib = registry("lime", "8.0.0");
    let status = HaxelibStatus::new(
        &lib,
        InstallType::Outdated,
        Some("8.0.0".to_string()),
        Some("7.9.0".to_string()),
    );
    assert_eq!(status.lib, &lib);
    assert_eq!(status.install_type, InstallType::Outdated);
    assert_eq!(status.wants, Some("8.0.0".to_string()));
    assert_eq!(status.installed, Some("7.9.0".to_string()));
}

#[test]
fn absent_record_is_missing() {
    let lib = registry("lime", "8.0.0");
    let status = check_dependency(&lib, &LocalRecord::Absent).unwrap();
    assert_eq!(status.install_type, InstallType::Missing);
    assert_eq!(status.wants, Some("8.0.0".to_string()));
    assert_eq!(status.installed, None);
}

#[test]
fn flixel_without_haxelib_folder_is_missing() {
    let lib = flixel();
    let status = check_dependency(&lib, &LocalRecord::Absent).unwrap();
    assert_eq!(status.install_type, InstallType::Missing);
    assert_eq!(status.wants, Some("master".to_string()));
}

#[test]
fn flixel_on_master_is_installed() {
    let lib = flixel();
    let record = working_copy(Some("master"), Some(HEAD), false);
    let status = check_dependency(&lib, &record).unwrap();
    assert_eq!(status.install_type, InstallType::AlreadyInstalled);
    assert_eq!(status.wants, None);
    assert_eq!(status.installed, None);
}

#[test]
fn marker_mismatch_is_outdated() {
    let lib = registry("openfl", "4.2.0");
    let record = marker_dir(MarkerFile::Content("4.1.0".to_string()));
    let status = check_dependency(&lib, &record).unwrap();
    assert_eq!(status.install_type, InstallType::Outdated);
    assert_eq!(status.wants, Some("4.2.0".to_string()));
    assert_eq!(status.installed, Some("4.1.0".to_string()));
}

#[test]
fn marker_match_is_installed() {
    let lib = registry("openfl", "4.2.0");
    let record = marker_dir(MarkerFile::Content("4.2.0".to_string()));
    let status = check_dependency(&lib, &record).unwrap();
    assert_eq!(status.install_type, InstallType::AlreadyInstalled);
}

#[test]
fn marker_with_trailing_newline_is_outdated() {
    let lib = registry("openfl", "4.2.0");
    let record = marker_dir(MarkerFile::Content("4.2.0\n".to_string()));
    let status = check_dependency(&lib, &record).unwrap();
    assert_eq!(status.install_type, InstallType::Outdated);
    assert_eq!(status.installed, Some("4.2.0\n".to_string()));
}

#[test]
fn dev_marker_overrides_current() {
    let lib = registry("openfl", "4.2.0");
    let record = LocalRecord::Present(RecordDir {
        dev_marker: MarkerFile::Content("/home/me/openfl".to_string()),
        current_marker: MarkerFile::Content("4.2.0".to_string()),
        repository: Repository::Absent,
    });
    let status = check_dependency(&lib, &record).unwrap();
    assert_eq!(status.install_type, InstallType::Outdated);
    assert_eq!(status.installed, Some("/home/me/openfl".to_string()));
}

#[test]
fn marker_errors_are_told_apart() {
    let lib = registry("openfl", "4.2.0");
    assert_eq!(
        check_dependency(&lib, &marker_dir(MarkerFile::Absent)),
        Err(InspectError::MarkerMissing)
    );
    assert_eq!(
        check_dependency(&lib, &marker_dir(MarkerFile::Unreadable)),
        Err(InspectError::MarkerUnreadable)
    );
}

#[test]
fn missing_pin_is_an_error() {
    let mut lib = registry("openfl", "4.2.0");
    lib.version = None;
    assert_eq!(check_dependency(&lib, &LocalRecord::Absent), Err(InspectError::MissingPin));
    let mut lib = flixel();
    lib.vcs_ref = None;
    assert_eq!(
        check_dependency(&lib, &working_copy(Some("master"), None, false)),
        Err(InspectError::MissingPin)
    );
}

#[test]
fn git_without_working_copy_is_missing_git() {
    let lib = flixel();
    let record = marker_dir(MarkerFile::Content("git".to_string()));
    let status = check_dependency(&lib, &record).unwrap();
    assert_eq!(status.install_type, InstallType::MissingGit);
    assert_eq!(status.wants, Some("master".to_string()));
}

#[test]
fn unopenable_repository_is_missing() {
    let lib = flixel();
    let record = LocalRecord::Present(RecordDir {
        dev_marker: MarkerFile::Absent,
        current_marker: MarkerFile::Content("git".to_string()),
        repository: Repository::Unopenable,
    });
    let status = check_dependency(&lib, &record).unwrap();
    assert_eq!(status.install_type, InstallType::Missing);
}

#[test]
fn unresolved_head_is_an_error() {
    let lib = flixel();
    let record = LocalRecord::Present(RecordDir {
        dev_marker: MarkerFile::Absent,
        current_marker: MarkerFile::Content("git".to_string()),
        repository: Repository::Open(WorkingCopy {
            head: None,
            branch: None,
            pinned_target: None,
            dirty: Some(false),
        }),
    });
    assert_eq!(check_dependency(&lib, &record), Err(InspectError::HeadUnresolved));
}

#[test]
fn unknown_cleanliness_is_an_error() {
    let lib = flixel();
    let record = LocalRecord::Present(RecordDir {
        dev_marker: MarkerFile::Absent,
        current_marker: MarkerFile::Content("git".to_string()),
        repository: Repository::Open(WorkingCopy {
            head: Some(HEAD.to_string()),
            branch: Some("master".to_string()),
            pinned_target: None,
            dirty: None,
        }),
    });
    assert_eq!(check_dependency(&lib, &record), Err(InspectError::StatusUnavailable));
}

#[test]
fn pin_by_full_commit() {
    let lib = git("flixel", "https://github.com/haxeflixel/flixel", HEAD);
    let status = check_dependency(&lib, &working_copy(None, None, false)).unwrap();
    assert_eq!(status.install_type, InstallType::AlreadyInstalled);
}

#[test]
fn pin_by_abbreviated_commit() {
    let lib = git("flixel", "https://github.com/haxeflixel/flixel", "35e77c16");
    let status = check_dependency(&lib, &working_copy(None, None, false)).unwrap();
    assert_eq!(status.install_type, InstallType::AlreadyInstalled);
}

#[test]
fn pin_by_abbreviated_commit_of_odd_length() {
    let lib = git("flixel", "https://github.com/haxeflixel/flixel", "35e77");
    let status = check_dependency(&lib, &working_copy(None, None, false)).unwrap();
    assert_eq!(status.install_type, InstallType::AlreadyInstalled);
}

#[test]
fn pin_by_upper_case_abbreviation() {
    let lib = git("flixel", "https://github.com/haxeflixel/flixel", "35E77C16");
    let status = check_dependency(&lib, &working_copy(None, None, false)).unwrap();
    assert_eq!(status.install_type, InstallType::AlreadyInstalled);
}

#[test]
fn abbreviation_of_three_digits_is_too_short() {
    let lib = git("flixel", "https://github.com/haxeflixel/flixel", "35e");
    let status = check_dependency(&lib, &working_copy(None, None, false)).unwrap();
    assert_eq!(status.install_type, InstallType::Outdated);
}

#[test]
fn abbreviation_of_another_commit_is_outdated() {
    let lib = git("flixel", "https://github.com/haxeflixel/flixel", "35e77c17");
    let status = check_dependency(&lib, &working_copy(Some("dev"), None, false)).unwrap();
    assert_eq!(status.install_type, InstallType::Outdated);
    assert_eq!(status.wants, Some("35e77c17".to_string()));
    assert_eq!(status.installed, Some(format!("dev {}", HEAD)));
}

#[test]
fn pin_by_branch_name() {
    let lib = flixel();
    let status = check_dependency(&lib, &working_copy(Some("master"), None, false)).unwrap();
    assert_eq!(status.install_type, InstallType::AlreadyInstalled);
}

#[test]
fn pin_by_tag_name() {
    let lib = git("flixel", "https://github.com/haxeflixel/flixel", "5.0.0");
    let status = check_dependency(&lib, &working_copy(None, Some(HEAD), false)).unwrap();
    assert_eq!(status.install_type, InstallType::AlreadyInstalled);
}

#[test]
fn tag_at_another_commit_is_outdated() {
    let lib = git("flixel", "https://github.com/haxeflixel/flixel", "5.0.0");
    let other = "0000000000000000000000000000000000000001";
    let status = check_dependency(&lib, &working_copy(None, Some(other), false)).unwrap();
    assert_eq!(status.install_type, InstallType::Outdated);
    assert_eq!(status.installed, Some(HEAD.to_string()));
}

#[test]
fn local_changes_are_a_conflict() {
    let lib = flixel();
    let status = check_dependency(&lib, &working_copy(Some("master"), Some(HEAD), true)).unwrap();
    assert_eq!(status.install_type, InstallType::Conflict);
    assert_eq!(status.wants, Some("master".to_string()));
    assert_eq!(status.installed, None);
}

#[test]
fn mercurial_is_not_implemented() {
    let mut lib = registry("old", "1.0.0");
    lib.haxelib_type = HaxelibType::Mecurial;
    lib.version = None;
    let status = check_dependency(&lib, &marker_dir(MarkerFile::Absent)).unwrap();
    assert_eq!(status.install_type, InstallType::NotImplemented);
    let status = check_dependency(&lib, &LocalRecord::Absent).unwrap();
    assert_eq!(status.install_type, InstallType::Missing);
    assert_eq!(status.wants, None);
}

fn sample() -> (Dependancies, Vec<LocalRecord>) {
    let deps = Dependancies {
        dependencies: vec![
            registry("lime", "8.0.0"),
            flixel(),
            registry("openfl", "4.2.0"),
            registry("hscript", "2.5.0"),
        ],
    };
    let records = vec![
        marker_dir(MarkerFile::Content("8.0.0".to_string())),
        working_copy(Some("master"), Some(HEAD), false),
        marker_dir(MarkerFile::Unreadable),
        LocalRecord::Absent,
    ];
    (deps, records)
}

#[test]
fn reconcile_keeps_order_and_isolates_failures() {
    let (deps, records) = sample();
    let outcomes = compare_haxelib_to_hmm(&deps, &records).unwrap();
    assert_eq!(outcomes.len(), 4);
    assert_eq!(outcomes[0].as_ref().unwrap().install_type, InstallType::AlreadyInstalled);
    assert_eq!(outcomes[0].as_ref().unwrap().lib.name, "lime");
    assert_eq!(outcomes[1].as_ref().unwrap().install_type, InstallType::AlreadyInstalled);
    assert_eq!(outcomes[1].as_ref().unwrap().lib.name, "flixel");
    assert_eq!(outcomes[2], Err(InspectError::MarkerUnreadable));
    assert_eq!(outcomes[3].as_ref().unwrap().install_type, InstallType::Missing);
    assert_eq!(outcomes[3].as_ref().unwrap().lib.name, "hscript");
}

#[test]
fn reconcile_twice_gives_the_same() {
    let (deps, records) = sample();
    let first = compare_haxelib_to_hmm(&deps, &records).unwrap();
    let second = compare_haxelib_to_hmm(&deps, &records).unwrap();
    assert_eq!(first, second);
}

#[test]
fn reconcile_wants_one_record_each() {
    let (deps, mut records) = sample();
    records.pop();
    assert_eq!(compare_haxelib_to_hmm(&deps, &records), Err(InspectError::RecordCount));
    assert_eq!(check(&deps, &records), Err(InspectError::RecordCount));
}

#[test]
fn reconcile_of_empty_manifest_is_empty() {
    let deps = Dependancies { dependencies: vec![] };
    assert_eq!(compare_haxelib_to_hmm(&deps, &vec![]).unwrap().len(), 0);
    assert_eq!(check(&deps, &vec![]), Ok(CheckSummary { installed: 0, total: 0 }));
}

#[test]
fn summary_counts_installed_of_total() {
    let (deps, records) = sample();
    let summary = check(&deps, &records).unwrap();
    assert_eq!(summary, CheckSummary { installed: 2, total: 4 });
    assert_eq!(summary.line(), "2 / 4 dependencie(s) are installed at the correct versions");
    let outcomes = compare_haxelib_to_hmm(&deps, &records).unwrap();
    assert_eq!(summarize(&outcomes), summary);
}

#[test]
fn summary_line_with_many_digits() {
    let summary = CheckSummary { installed: 107, total: 1200 };
    assert_eq!(summary.line(), "107 / 1200 dependencie(s) are installed at the correct versions");
}

#[test]
fn report_of_each_status() {
    let lib = registry("openfl", "4.2.0");
    let status = HaxelibStatus::new(&lib, InstallType::Missing, Some("4.2.0".to_string()), None);
    assert_eq!(
        print_install_status(&status),
        "openfl is not installed\nExpected: 4.2.0 | Installed: None\n"
    );
    let status = HaxelibStatus::new(&lib, InstallType::MissingGit, Some("master".to_string()), None);
    assert_eq!(
        print_install_status(&status),
        "openfl is not cloned / installed (via git)\nExpected: master | Installed: None\n"
    );
    let status = HaxelibStatus::new(
        &lib,
        InstallType::Outdated,
        Some("4.2.0".to_string()),
        Some("4.1.0".to_string()),
    );
    assert_eq!(
        print_install_status(&status),
        "openfl is not at the correct version\nExpected: 4.2.0 | Installed: 4.1.0\n"
    );
    let status = HaxelibStatus::new(&lib, InstallType::AlreadyInstalled, None, None);
    assert_eq!(print_install_status(&status), "");
    let status = HaxelibStatus::new(&lib, InstallType::Conflict, Some("master".to_string()), None);
    assert_eq!(print_install_status(&status), "openfl has local changes\n");
    let status = HaxelibStatus::new(&lib, InstallType::NotImplemented, None, None);
    assert_eq!(
        print_install_status(&status),
        "openfl cannot be checked: Haxelib is not implemented\n"
    );
}

#[test]
fn report_of_a_failed_check() {
    let lib = registry("openfl", "4.2.0");
    assert_eq!(
        print_check_failure(&lib, InspectError::MarkerUnreadable),
        "openfl could not be checked: the file that records its version cannot be read\nExpected: 4.2.0\n"
    );
    let mut lib = flixel();
    lib.vcs_ref = None;
    assert_eq!(
        print_check_failure(&lib, InspectError::MissingPin),
        "flixel could not be checked: the manifest gives no version or ref for it\nExpected: None\n"
    );
    assert_eq!(InspectError::MarkerMissing.reason(), "there is neither a .dev nor a .current file");
    assert_eq!(
        InspectError::HeadUnresolved.reason(),
        "the commit that is checked out cannot be resolved"
    );
    assert_eq!(
        InspectError::StatusUnavailable.reason(),
        "the working copy cannot be examined for changes"
    );
    assert_eq!(InspectError::RecordCount.reason(), "nothing was observed for it");
}

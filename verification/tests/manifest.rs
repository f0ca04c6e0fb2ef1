use hmm_rs::commands::clean_command::{remove_haxelib_folder, CleanError};
use hmm_rs::commands::haxelib_command::{
    haxelib_release, install_haxelib, latest_version, latest_version_query, version_from_decoded,
    HaxelibError, HaxelibRequest,
};
use hmm_rs::commands::init_command::{create_haxelib_folder, init_hmm, InitError};
use hmm_rs::commands::tohxml_command::dump_to_hxml;
use hmm_rs::hmm::dependencies::{Dependancies, ManifestError};
use hmm_rs::hmm::haxelib::{Haxelib, HaxelibType};
use hmm_rs::hmm::json::{create_empty_hmm_json, read_json, save_json, ManifestEntry};
use hmm_rs::text::{decimal_string, find_from, replace_dots, same_text, starts_with};

fn registry(name: &str, version: &str) -> Haxelib {
    Haxelib {
        name: name.to_string(),
        haxelib_type: HaxelibType::Haxelib,
        vcs_ref: None,
        dir: None,
        url: None,
        version: Some(version.to_string()),
    }
}

fn flixel() -> Haxelib {
    Haxelib {
        name: "flixel".to_string(),
        haxelib_type: HaxelibType::Git,
        vcs_ref: Some("master".to_string()),
        dir: None,
        url: Some("https://github.com/haxeflixel/flixel".to_string()),
        version: None,
    }
}

fn manifest() -> Dependancies {
    Dependancies {
        dependencies: vec![registry("lime", "8.0.0"), flixel(), registry("lime", "7.0.0")],
    }
}

#[test]
fn test_clean_haxelib_folder() {
    assert!(remove_haxelib_folder(true).is_ok());
    assert!(remove_haxelib_folder(false).is_err());
}

#[test]
fn test_create_haxelib_folder() {
    assert!(create_haxelib_folder(false).is_ok());
    assert!(create_haxelib_folder(true).is_err());
}

#[test]
fn init_twice_fails_the_second_time() {
    let first = init_hmm(false);
    assert_eq!(first, Ok(Dependancies { dependencies: vec![] }));
    let second = init_hmm(true);
    assert_eq!(second, Err(InitError::FolderExists));
    assert!(InitError::FolderExists.message().starts_with("A .haxelib folder already exists"));
}

#[test]
fn clean_error_message() {
    assert_eq!(remove_haxelib_folder(false), Err(CleanError::FolderMissing));
    assert_eq!(
        CleanError::FolderMissing.message(),
        "A .haxelib folder does not exist in this directory, so it cannot be removed."
    );
}

#[test]
fn empty_manifest_has_no_dependencies() {
    assert_eq!(create_empty_hmm_json().dependencies.len(), 0);
}

#[test]
fn type_names_round_trip() {
    for kind in [HaxelibType::Git, HaxelibType::Haxelib, HaxelibType::Dev, HaxelibType::Mecurial] {
        assert_eq!(HaxelibType::from_manifest_name(kind.manifest_name()), Some(kind));
    }
    assert_eq!(HaxelibType::Git.manifest_name(), "git");
    assert_eq!(HaxelibType::Haxelib.manifest_name(), "haxelib");
    assert_eq!(HaxelibType::Dev.manifest_name(), "dev");
    assert_eq!(HaxelibType::Mecurial.manifest_name(), "hg");
    assert_eq!(HaxelibType::from_manifest_name("svn"), None);
    assert_eq!(HaxelibType::from_manifest_name("Git"), None);
    assert_eq!(HaxelibType::Mecurial.label(), "Mecurial");
}

#[test]
fn well_formed_pins() {
    assert!(registry("lime", "8.0.0").is_well_formed());
    assert!(flixel().is_well_formed());
    let mut lib = flixel();
    lib.url = None;
    assert!(!lib.is_well_formed());
    let mut lib = registry("lime", "8.0.0");
    lib.vcs_ref = Some("master".to_string());
    assert!(!lib.is_well_formed());
    let mut lib = registry("lime", "8.0.0");
    lib.haxelib_type = HaxelibType::Dev;
    assert!(!lib.is_well_formed());
}

#[test]
fn get_haxelib_finds_the_first_of_a_name() {
    let deps = manifest();
    let found = deps.get_haxelib("lime").unwrap();
    assert_eq!(found.version, Some("8.0.0".to_string()));
    assert_eq!(deps.get_haxelib("flixel").unwrap().haxelib_type, HaxelibType::Git);
    assert_eq!(deps.get_haxelib("openfl"), Err(ManifestError::NotFound));
    assert_eq!(deps.get_haxelib("Lime"), Err(ManifestError::NotFound));
}

#[test]
fn listing_of_each_source() {
    assert_eq!(
        Dependancies::print_haxelib(&registry("lime", "8.0.0")),
        "lime [Haxelib] \nversion: 8.0.0 \nurl: https://lib.haxe.org/p/lime\n"
    );
    assert_eq!(
        Dependancies::print_haxelib(&flixel()),
        "flixel [Git] \nref: master \nurl: https://github.com/haxeflixel/flixel\n"
    );
    let mut lib = flixel();
    lib.haxelib_type = HaxelibType::Dev;
    lib.vcs_ref = None;
    assert_eq!(Dependancies::print_haxelib(&lib), "flixel [Dev] \nNo version or ref \n");
}

#[test]
fn list_all_or_by_name() {
    let deps = manifest();
    let all = deps.print_string_list(&None).unwrap();
    assert_eq!(all.len(), 3);
    assert_eq!(all[1], Dependancies::print_haxelib(&flixel()));
    let some = deps
        .print_string_list(&Some(vec!["flixel".to_string(), "lime".to_string()]))
        .unwrap();
    assert_eq!(
        some,
        vec![
            Dependancies::print_haxelib(&flixel()),
            Dependancies::print_haxelib(&registry("lime", "8.0.0"))
        ]
    );
    assert_eq!(
        deps.print_string_list(&Some(vec!["lime".to_string(), "openfl".to_string()])),
        Err(ManifestError::NotFound)
    );
    assert_eq!(deps.print_string_list(&Some(vec![])), Ok(vec![]));
}

#[test]
fn build_flags_of_a_manifest() {
    let deps = manifest();
    assert_eq!(
        dump_to_hxml(&deps).unwrap(),
        "-lib lime:8.0.0\n-lib flixel:git:https://github.com/haxeflixel/flixel#master\n-lib lime:7.0.0\n"
    );
    assert_eq!(dump_to_hxml(&Dependancies { dependencies: vec![] }).unwrap(), "");
}

#[test]
fn build_flags_without_pins() {
    let mut git = flixel();
    git.vcs_ref = None;
    let mut reg = registry("lime", "8.0.0");
    reg.version = None;
    let mut dev = registry("local", "1");
    dev.haxelib_type = HaxelibType::Dev;
    let deps = Dependancies { dependencies: vec![git, reg, dev] };
    assert_eq!(
        dump_to_hxml(&deps).unwrap(),
        "-lib flixel:git:https://github.com/haxeflixel/flixel\n-lib lime\n-lib local\n"
    );
}

#[test]
fn build_flags_need_the_remote() {
    let mut git = flixel();
    git.url = None;
    let deps = Dependancies { dependencies: vec![registry("lime", "8.0.0"), git] };
    assert_eq!(dump_to_hxml(&deps), Err(ManifestError::MissingUrl));
}

#[test]
fn query_for_the_latest_version() {
    assert_eq!(latest_version_query("lime"), "ay3:apiy16:getLatestVersionhay4:limeh");
    assert_eq!(
        latest_version_query("flixel-addons"),
        "ay3:apiy16:getLatestVersionhay13:flixel-addonsh"
    );
    assert_eq!(latest_version_query(""), "ay3:apiy16:getLatestVersionhay0:h");
    assert_eq!(latest_version_query("h\u{e9}"), "ay3:apiy16:getLatestVersionhay3:h\u{e9}h");
}

#[test]
fn latest_version_from_reply() {
    assert_eq!(latest_version("y5:8.1.2"), Ok("8.1.2".to_string()));
    assert_eq!(latest_version("y9:8.1.2%2Drc:rest"), Ok("8.1.2-rc".to_string()));
    assert_eq!(latest_version("y0:"), Ok("".to_string()));
}

#[test]
fn latest_version_errors() {
    assert_eq!(latest_version("no colon here"), Err(HaxelibError::MalformedReply));
    assert_eq!(latest_version(""), Err(HaxelibError::MalformedReply));
    assert_eq!(latest_version("y3:%FF"), Err(HaxelibError::BadEncoding));
    assert_eq!(
        latest_version("x23:No%20such%20Project%20%3A%20nope"),
        Err(HaxelibError::NoSuchProject)
    );
    assert_eq!(
        version_from_decoded("No such Project : nope".to_string()),
        Err(HaxelibError::NoSuchProject)
    );
    assert_eq!(version_from_decoded("1.0.0".to_string()), Ok("1.0.0".to_string()));
}

#[test]
fn install_by_name() {
    assert_eq!(
        install_haxelib("lime", &Some("8.0.0".to_string())),
        HaxelibRequest::Install(registry("lime", "8.0.0"))
    );
    assert_eq!(
        install_haxelib("lime", &None),
        HaxelibRequest::Query("ay3:apiy16:getLatestVersionhay4:limeh".to_string())
    );
    assert_eq!(haxelib_release("lime", "8.0.0"), registry("lime", "8.0.0"));
}

#[test]
fn text_helpers() {
    assert!(same_text("abc", "abc"));
    assert!(!same_text("abc", "abd"));
    assert!(!same_text("abc", "ab"));
    assert!(same_text("", ""));
    assert!(starts_with("abcdef", "abc"));
    assert!(starts_with("abc", ""));
    assert!(!starts_with("ab", "abc"));
    assert!(!starts_with("abd", "abc"));
    assert_eq!(replace_dots("1.2.3"), "1,2,3");
    assert_eq!(replace_dots("h\u{e9}.x"), "h\u{e9},x");
    assert_eq!(replace_dots(""), "");
    assert_eq!(decimal_string(0), "0");
    assert_eq!(decimal_string(9), "9");
    assert_eq!(decimal_string(10), "10");
    assert_eq!(decimal_string(4096), "4096");
    assert_eq!(find_from("a:b:c", ':', 0), 1);
    assert_eq!(find_from("a:b:c", ':', 2), 3);
    assert_eq!(find_from("a:b:c", ':', 4), 5);
}

#[test]
fn find_from_beyond_the_end() {
    assert_eq!(find_from("a:b", ':', 7), 3);
    assert_eq!(find_from("", ':', 0), 0);
}

#[test]
fn validate_accepts_a_sound_manifest() {
    let deps = Dependancies { dependencies: vec![registry("lime", "8.0.0"), flixel()] };
    assert_eq!(deps.validate(), Ok(()));
    assert_eq!(Dependancies { dependencies: vec![] }.validate(), Ok(()));
}

#[test]
fn validate_rejects_a_name_used_twice() {
    assert_eq!(manifest().validate(), Err(ManifestError::DuplicateName));
}

#[test]
fn validate_rejects_wrong_pins_first() {
    let mut bad = flixel();
    bad.vcs_ref = None;
    let deps = Dependancies {
        dependencies: vec![registry("lime", "8.0.0"), registry("lime", "7.0.0"), bad],
    };
    assert_eq!(deps.validate(), Err(ManifestError::BadPin));
}

#[test]
fn manifest_entries_as_the_file_spells_them() {
    let entries = save_json(&Dependancies { dependencies: vec![flixel(), registry("lime", "8.0.0")] });
    assert_eq!(
        entries,
        vec![
            ManifestEntry {
                name: "flixel".to_string(),
                kind: "git".to_string(),
                vcs_ref: Some("master".to_string()),
                dir: None,
                url: Some("https://github.com/haxeflixel/flixel".to_string()),
                version: None,
            },
            ManifestEntry {
                name: "lime".to_string(),
                kind: "haxelib".to_string(),
                vcs_ref: None,
                dir: None,
                url: None,
                version: Some("8.0.0".to_string()),
            },
        ]
    );
}

#[test]
fn manifest_saved_and_read_is_the_same() {
    let mut dev = registry("local", "1.0.0");
    dev.haxelib_type = HaxelibType::Dev;
    dev.dir = Some("../local".to_string());
    let mut hg = registry("old", "1.0.0");
    hg.haxelib_type = HaxelibType::Mecurial;
    let deps = Dependancies { dependencies: vec![flixel(), registry("lime", "8.0.0"), dev, hg] };
    assert_eq!(read_json(&save_json(&deps)), Ok(deps));
}

#[test]
fn manifest_with_unknown_type_is_rejected() {
    let mut entries = save_json(&manifest());
    entries[1].kind = "svn".to_string();
    assert_eq!(read_json(&entries), Err(ManifestError::UnknownType));
    assert_eq!(read_json(&vec![]), Ok(Dependancies { dependencies: vec![] }));
}

fn sample(name: &str) -> &'static str {
    match name {
        "flixel.json" => {
            r#"{
  "dependencies": [
    {
      "name": "flixel",
      "type": "git",
      "dir": null,
      "ref": "master",
      "url": "https://github.com/haxeflixel/flixel"
    },
    {
      "name": "lime",
      "type": "haxelib",
      "dir": null,
      "version": "8.0.0"
    }
  ]
}"#
        }
        other => panic!("no sample called {}", other),
    }
}

fn text_field(entry: &serde_json::Value, key: &str) -> Option<String> {
    entry.get(key).and_then(|value| value.as_str()).map(|text| text.to_string())
}

fn entries_of(json: &str) -> Vec<ManifestEntry> {
    let value: serde_json::Value = serde_json::from_str(json).unwrap();
    value["dependencies"]
        .as_array()
        .unwrap()
        .iter()
        .map(|entry| ManifestEntry {
            name: text_field(entry, "name").unwrap(),
            kind: text_field(entry, "type").unwrap(),
            vcs_ref: text_field(entry, "ref"),
            dir: text_field(entry, "dir"),
            url: text_field(entry, "url"),
            version: text_field(entry, "version"),
        })
        .collect()
}

#[test]
fn test_hmm_json_read() {
    let flixel_json = sample("flixel.json");
    assert!(read_json(&entries_of(flixel_json)).is_ok());
}

#[test]
fn sample_manifest_reads_as_its_dependencies() {
    let deps = read_json(&entries_of(sample("flixel.json"))).unwrap();
    assert_eq!(deps, Dependancies { dependencies: vec![flixel(), registry("lime", "8.0.0")] });
    assert_eq!(deps.validate(), Ok(()));
}

use cargobuild::model::InvokeError;
use cargobuild::registry::ExternalBuildMgr;
use cargobuild::registry::FoundFile;
use cargobuild::registry::plugin_id_of;
use cargobuild::suggest::edit_distance;

fn found(dir: &str, name: &str, executable: bool, hash: u64) -> FoundFile {
    FoundFile {
        dir: dir.to_string(),
        name: name.to_string(),
        executable,
        toolchain_hash: hash,
    }
}

#[test]
fn only_convention_and_executable_register() {
    let files = vec![
        found("/a", "cargobuild-go", true, 1),
        found("/a", "cargobuild-py", false, 2),
        found("/a", "other-x", true, 3),
        found("/a", "cargobuildgo", true, 4),
        found("/a", "README", true, 5),
    ];
    let mgr = ExternalBuildMgr::new(&files, "");
    assert!(mgr.build_system("go").is_ok());
    assert!(mgr.build_system("py").is_err());
    assert!(mgr.build_system("x").is_err());
    assert!(mgr.build_system("other-x").is_err());
    assert!(mgr.build_system("README").is_err());
    assert!(mgr.build_system("cargobuildgo").is_err());
}

#[test]
fn suffix_is_required_and_stripped() {
    let files = vec![
        found("/a", "cargobuild-go.exe", true, 1),
        found("/a", "cargobuild-py", true, 2),
    ];
    let mgr = ExternalBuildMgr::new(&files, ".exe");
    let go = mgr.build_system("go").expect("go registers under .exe suffix");
    assert_eq!(go.path().as_str(), "/a/cargobuild-go.exe");
    assert!(mgr.build_system("py").is_err());
    assert!(mgr.build_system("go.exe").is_err());
}

#[test]
fn plugin_id_follows_naming_convention() {
    assert_eq!(plugin_id_of("cargobuild-go", ""), Some("go".to_string()));
    assert_eq!(plugin_id_of("cargobuild-go.exe", ".exe"), Some("go".to_string()));
    assert_eq!(plugin_id_of("cargobuild-", ""), Some("".to_string()));
    assert_eq!(plugin_id_of("cargobuild-go", ".exe"), None);
    assert_eq!(plugin_id_of("go", ""), None);
    assert_eq!(plugin_id_of("xcargobuild-go", ""), None);
}

#[test]
fn two_plugins_in_two_directories_both_resolve() {
    let files = vec![
        found("/search/one", "cargobuild-go", true, 11),
        found("/search/two", "cargobuild-python", true, 22),
    ];
    let mgr = ExternalBuildMgr::new(&files, "");
    let go = mgr.build_system("go").expect("go registered");
    assert_eq!(go.path().as_str(), "/search/one/cargobuild-go");
    assert_eq!(go.hash(), 11);
    let py = mgr.build_system("python").expect("python registered");
    assert_eq!(py.path().as_str(), "/search/two/cargobuild-python");
    assert_eq!(py.hash(), 22);
}

#[test]
fn same_identifier_later_directory_wins() {
    let files = vec![
        found("/search/one", "cargobuild-go", true, 11),
        found("/search/two", "cargobuild-go", true, 22),
    ];
    let mgr = ExternalBuildMgr::new(&files, "");
    let go = mgr.build_system("go").expect("go registered once");
    assert_eq!(go.path().as_str(), "/search/two/cargobuild-go");
    assert_eq!(go.hash(), 22);
    assert_eq!(mgr.toolchain_hash("go"), Ok(22));
}

#[test]
fn unknown_identifier_close_match_suggested() {
    let files = vec![found("/a", "cargobuild-python", true, 1)];
    let mgr = ExternalBuildMgr::new(&files, "");
    let err = mgr.build_system("pythn").expect_err("pythn is not registered");
    assert_eq!(
        err,
        InvokeError::UnknownPlugin {
            requested: "pythn".to_string(),
            suggestion: Some("python".to_string()),
        }
    );
}

#[test]
fn unknown_identifier_no_close_match_no_suggestion() {
    let files = vec![found("/a", "cargobuild-python", true, 1)];
    let mgr = ExternalBuildMgr::new(&files, "");
    let err = mgr.build_system("zzz").expect_err("zzz is not registered");
    assert_eq!(
        err,
        InvokeError::UnknownPlugin { requested: "zzz".to_string(), suggestion: None }
    );
}

#[test]
fn empty_registry_lookup_fails_without_suggestion() {
    let mgr = ExternalBuildMgr::new(&Vec::new(), "");
    let err = mgr.build_system("go").expect_err("nothing registered");
    assert_eq!(
        err,
        InvokeError::UnknownPlugin { requested: "go".to_string(), suggestion: None }
    );
}

#[test]
fn toolchain_hash_of_unknown_plugin_is_refused() {
    let files = vec![found("/a", "cargobuild-go", true, 7)];
    let mgr = ExternalBuildMgr::new(&files, "");
    assert_eq!(mgr.toolchain_hash("go"), Ok(7));
    assert!(mgr.toolchain_hash("rust").is_err());
}

#[test]
fn edit_distance_examples() {
    assert_eq!(edit_distance("", "abc"), 3);
    assert_eq!(edit_distance("abc", ""), 3);
    assert_eq!(edit_distance("kitten", "sitting"), 3);
    assert_eq!(edit_distance("python", "pythn"), 1);
    assert_eq!(edit_distance("same", "same"), 0);
}

#[test]
fn suggestion_threshold_scales_with_the_request() {
    let files = vec![found("/a", "cargobuild-abc", true, 1)];
    let mgr = ExternalBuildMgr::new(&files, "");
    let err = mgr.build_system("ab").expect_err("ab is not registered");
    assert_eq!(
        err,
        InvokeError::UnknownPlugin {
            requested: "ab".to_string(),
            suggestion: Some("abc".to_string()),
        }
    );
}

#[test]
fn suggestion_tie_prefers_the_earliest_registration() {
    let files = vec![
        found("/a", "cargobuild-aa", true, 1),
        found("/a", "cargobuild-ab", true, 2),
    ];
    let mgr = ExternalBuildMgr::new(&files, "");
    let err = mgr.build_system("ac").expect_err("ac is not registered");
    assert_eq!(
        err,
        InvokeError::UnknownPlugin {
            requested: "ac".to_string(),
            suggestion: Some("aa".to_string()),
        }
    );
}

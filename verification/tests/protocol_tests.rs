use cargobuild::model::Edition;
use cargobuild::model::ExchangeOutcome;
use cargobuild::model::InvokeError;
use cargobuild::model::OutputFile;
use cargobuild::model::Target;
use cargobuild::model::TargetKind;
use cargobuild::model::Unit;
use cargobuild::registry::ExternalBuildMgr;
use cargobuild::registry::FoundFile;

fn registry_with_go() -> ExternalBuildMgr {
    let files = vec![FoundFile {
        dir: "/plugins".to_string(),
        name: "cargobuild-go".to_string(),
        executable: true,
        toolchain_hash: 9,
    }];
    ExternalBuildMgr::new(&files, "")
}

#[test]
fn success_response_yields_one_binary_target() {
    let mgr = registry_with_go();
    let outcome = ExchangeOutcome::Exited {
        stdout: "{\"Success\": {\"targets\":[{\"kind\":\"Bin\",\"name\":\"foo\",\"src_path\":\"src/main\"}], \"warnings\":[], \"errors\":[]}}".to_string(),
        exit_code: 0,
    };
    let mut warnings = Vec::new();
    let mut errors = Vec::new();
    let targets = mgr
        .targets("go", &outcome, &mut warnings, &mut errors)
        .expect("zero exit with a success body resolves");
    assert_eq!(
        targets,
        vec![Target {
            kind: TargetKind::Binary,
            name: "foo".to_string(),
            src_path: "src/main".to_string(),
            edition: Edition::Edition2021,
        }]
    );
    assert!(warnings.is_empty());
    assert!(errors.is_empty());
}

#[test]
fn nonzero_exit_overrides_success_body() {
    let mgr = registry_with_go();
    let outcome = ExchangeOutcome::Exited {
        stdout: "{\"Success\": {\"targets\":[{\"kind\":\"Bin\",\"name\":\"foo\",\"src_path\":\"src/main\"}], \"warnings\":[], \"errors\":[]}}".to_string(),
        exit_code: 1,
    };
    let mut warnings = Vec::new();
    let mut errors = Vec::new();
    let err = mgr
        .targets("go", &outcome, &mut warnings, &mut errors)
        .expect_err("non-zero exit is authoritative");
    assert_eq!(
        err,
        InvokeError::ExecutionFailure { path: "/plugins/cargobuild-go".to_string(), exit_code: 1 }
    );
}

#[test]
fn malformed_output_is_a_protocol_error_whatever_the_exit_code() {
    let mgr = registry_with_go();
    for exit_code in [0, 3] {
        let outcome = ExchangeOutcome::Exited {
            stdout: "these are not the targets you are looking for".to_string(),
            exit_code,
        };
        let mut warnings = Vec::new();
        let mut errors = Vec::new();
        let err = mgr
            .targets("go", &outcome, &mut warnings, &mut errors)
            .expect_err("malformed output never resolves");
        assert_eq!(err, InvokeError::ProtocolError { path: "/plugins/cargobuild-go".to_string() });
    }
}

#[test]
fn in_band_failure_message_is_surfaced_verbatim() {
    let mgr = registry_with_go();
    let outcome = ExchangeOutcome::Exited {
        stdout: "{\"Failure\": {\"message\": \"missing sources\"}}".to_string(),
        exit_code: 0,
    };
    let mut warnings = Vec::new();
    let mut errors = Vec::new();
    let err = mgr
        .targets("go", &outcome, &mut warnings, &mut errors)
        .expect_err("an in-band failure is an error even on exit 0");
    assert_eq!(err, InvokeError::InBandFailure { message: "missing sources".to_string() });
}

#[test]
fn launch_failure_names_the_path() {
    let mgr = registry_with_go();
    let mut warnings = Vec::new();
    let mut errors = Vec::new();
    let err = mgr
        .targets("go", &ExchangeOutcome::LaunchFailed, &mut warnings, &mut errors)
        .expect_err("a spawn failure is an error");
    assert_eq!(err, InvokeError::LaunchFailure { path: "/plugins/cargobuild-go".to_string() });
}

#[test]
fn unknown_plugin_fails_before_any_exchange() {
    let mgr = registry_with_go();
    let outcome = ExchangeOutcome::LaunchFailed;
    let mut warnings = Vec::new();
    let mut errors = Vec::new();
    let err = mgr
        .targets("rust", &outcome, &mut warnings, &mut errors)
        .expect_err("unregistered identifier");
    assert!(matches!(err, InvokeError::UnknownPlugin { .. }));
}

#[test]
fn advisory_warnings_and_errors_are_appended_in_order() {
    let mgr = registry_with_go();
    let outcome = ExchangeOutcome::Exited {
        stdout: "{\"Success\":{\"targets\":[{\"kind\":\"Lib\",\"name\":\"core\",\"src_path\":\"lib/core\"}],\"warnings\":[\"w1\",\"w2\"],\"errors\":[\"e1\"]}}".to_string(),
        exit_code: 0,
    };
    let mut warnings = vec!["w0".to_string()];
    let mut errors = vec!["e0".to_string()];
    let targets = mgr
        .targets("go", &outcome, &mut warnings, &mut errors)
        .expect("advisory diagnostics are not fatal");
    assert_eq!(
        targets,
        vec![Target {
            kind: TargetKind::Library,
            name: "core".to_string(),
            src_path: "lib/core".to_string(),
            edition: Edition::Edition2021,
        }]
    );
    assert_eq!(warnings, vec!["w0".to_string(), "w1".to_string(), "w2".to_string()]);
    assert_eq!(errors, vec!["e0".to_string(), "e1".to_string()]);
}

#[test]
fn outputs_returns_the_recorded_artifacts() {
    let mgr = registry_with_go();
    let unit = Unit {
        package_name: "demo".to_string(),
        artifacts: vec![
            OutputFile { path: "target/demo.bin".to_string() },
            OutputFile { path: "target/demo.dbg".to_string() },
        ],
    };
    let outputs = mgr.outputs("go", &unit).expect("registered plugin");
    assert_eq!(outputs, unit.artifacts);
    assert!(mgr.outputs("rust", &unit).is_err());
}

#[test]
fn compiler_command_is_the_path_and_build_verb() {
    let mgr = registry_with_go();
    let cmd = mgr.compiler("go").expect("registered plugin");
    assert_eq!(cmd.get_program().to_str(), Some("/plugins/cargobuild-go"));
    let args: Vec<String> = cmd
        .get_args()
        .map(|a| a.to_str().unwrap().to_string())
        .collect();
    assert_eq!(args, vec!["build".to_string()]);
    assert!(mgr.compiler("rust").is_err());
}

#[test]
fn target_command_is_the_path_and_targets_verb() {
    let mgr = registry_with_go();
    let cmd = mgr.target_command("go").expect("registered plugin");
    assert_eq!(cmd.get_program().to_str(), Some("/plugins/cargobuild-go"));
    let args: Vec<String> = cmd
        .get_args()
        .map(|a| a.to_str().unwrap().to_string())
        .collect();
    assert_eq!(args, vec!["targets".to_string()]);
}

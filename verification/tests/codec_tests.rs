use cargobuild::digest::toolchain_digest;
use cargobuild::model::ExtTargetKind;
use cargobuild::model::TargetRequest;
use cargobuild::model::TargetResult;
use cargobuild::parse::parse_response;
use cargobuild::render::render_request;

#[test]
fn request_is_rendered_canonically() {
    let req = TargetRequest {
        package_name: "demo".to_string(),
        package_root: "/work/demo".to_string(),
    };
    assert_eq!(
        render_request(&req),
        "{\"package_name\":\"demo\",\"package_root\":\"/work/demo\"}"
    );
}

#[test]
fn request_escapes_quotes_and_backslashes() {
    let req = TargetRequest {
        package_name: "de\"mo".to_string(),
        package_root: "C:\\work".to_string(),
    };
    assert_eq!(
        render_request(&req),
        "{\"package_name\":\"de\\\"mo\",\"package_root\":\"C:\\\\work\"}"
    );
}

#[test]
fn success_body_parses_with_and_without_whitespace() {
    let tight = "{\"Success\":{\"targets\":[{\"kind\":\"Bin\",\"name\":\"a\",\"src_path\":\"s\"}],\"warnings\":[],\"errors\":[]}}";
    let spaced = " { \"Success\" : { \"targets\" : [ {\"kind\" : \"Bin\" , \"name\" : \"a\" , \"src_path\" : \"s\" } ] , \"warnings\" : [ ] , \"errors\" : [ ] } } ";
    for text in [tight, spaced] {
        match parse_response(text) {
            Some(TargetResult::Success { targets, warnings, errors }) => {
                assert_eq!(targets.len(), 1);
                assert!(matches!(targets[0].kind, ExtTargetKind::Bin));
                assert_eq!(targets[0].name, "a");
                assert_eq!(targets[0].src_path, "s");
                assert!(warnings.is_empty());
                assert!(errors.is_empty());
            },
            other => panic!("expected a success response, got {:?}", other),
        }
    }
}

#[test]
fn several_targets_and_diagnostics_parse_in_order() {
    let text = "{\"Success\":{\"targets\":[{\"kind\":\"Bin\",\"name\":\"a\",\"src_path\":\"pa\"},{\"kind\":\"Lib\",\"name\":\"b\",\"src_path\":\"pb\"}],\"warnings\":[\"w1\",\"w2\"],\"errors\":[\"e1\"]}}";
    match parse_response(text) {
        Some(TargetResult::Success { targets, warnings, errors }) => {
            assert_eq!(targets.len(), 2);
            assert!(matches!(targets[0].kind, ExtTargetKind::Bin));
            assert!(matches!(targets[1].kind, ExtTargetKind::Lib));
            assert_eq!(targets[1].name, "b");
            assert_eq!(warnings, vec!["w1".to_string(), "w2".to_string()]);
            assert_eq!(errors, vec!["e1".to_string()]);
        },
        other => panic!("expected a success response, got {:?}", other),
    }
}

#[test]
fn failure_body_parses_and_decodes_escapes() {
    let text = "{\"Failure\":{\"message\":\"a \\\"quoted\\\" \\\\ and\\na newline\\ttab\"}}";
    match parse_response(text) {
        Some(TargetResult::Failure { message }) => {
            assert_eq!(message, "a \"quoted\" \\ and\na newline\ttab");
        },
        other => panic!("expected a failure response, got {:?}", other),
    }
}

#[test]
fn malformed_or_schema_invalid_output_is_rejected() {
    let cases = [
        "",
        "not json at all",
        "{\"Success\":{}}",
        "{\"Triumph\":{\"targets\":[],\"warnings\":[],\"errors\":[]}}",
        "{\"Success\":{\"targets\":[{\"kind\":\"Dylib\",\"name\":\"a\",\"src_path\":\"s\"}],\"warnings\":[],\"errors\":[]}}",
        "{\"Success\":{\"targets\":[],\"warnings\":[],\"errors\":[]}} trailing",
        "{\"Success\":{\"targets\":[],\"warnings\":[],\"errors\":[]}",
        "{\"Failure\":{\"message\":\"unterminated}}",
        "{\"Failure\":{\"message\":\"bad \\q escape\"}}",
        "{\"Failure\":{\"message\":0}}",
    ];
    for text in cases {
        assert!(parse_response(text).is_none(), "accepted: {}", text);
    }
}

#[test]
fn rendered_request_round_trips_through_a_plugin_echo() {
    let req = TargetRequest {
        package_name: "pkg".to_string(),
        package_root: "/r".to_string(),
    };
    let wire = render_request(&req);
    assert!(wire.starts_with('{') && wire.ends_with('}'));
    assert!(wire.contains("\"package_name\":\"pkg\""));
    assert!(wire.contains("\"package_root\":\"/r\""));
}

#[test]
fn toolchain_digest_is_the_fnv1a_of_the_content() {
    assert_eq!(toolchain_digest(&Vec::new()), 0xcbf29ce484222325);
    assert_eq!(toolchain_digest(&vec![b'a']), 0xaf63dc4c8601ec8c);
    assert_eq!(
        toolchain_digest(&b"toolchain".to_vec()),
        {
            let mut acc: u64 = 0xcbf29ce484222325;
            for b in b"toolchain" {
                acc = (acc ^ (*b as u64)).wrapping_mul(0x100000001b3);
            }
            acc
        }
    );
    assert_ne!(toolchain_digest(&vec![1, 2, 3]), toolchain_digest(&vec![3, 2, 1]));
}

#[test]
fn all_single_character_escapes_decode() {
    let text = "{\"Failure\":{\"message\":\"\\\"\\\\\\/\\b\\f\\n\\r\\t\"}}";
    match parse_response(text) {
        Some(TargetResult::Failure { message }) => {
            assert_eq!(message, "\"\\/\u{0008}\u{000C}\n\r\t");
        },
        other => panic!("expected a failure response, got {:?}", other),
    }
}

#[test]
fn non_ascii_text_passes_through_the_codec() {
    let text = "{\"Failure\":{\"message\":\"h\u{e9}llo \u{2192} plugin\"}}";
    match parse_response(text) {
        Some(TargetResult::Failure { message }) => {
            assert_eq!(message, "h\u{e9}llo \u{2192} plugin");
        },
        other => panic!("expected a failure response, got {:?}", other),
    }
    let req = TargetRequest {
        package_name: "caf\u{e9}".to_string(),
        package_root: "/tmp/\u{2192}".to_string(),
    };
    assert_eq!(
        render_request(&req),
        "{\"package_name\":\"caf\u{e9}\",\"package_root\":\"/tmp/\u{2192}\"}"
    );
}

use judger::langs::{ArtifactFactory, JudgeCode, LangError, LanguageManifest, RequestError};
use judger::limits::Limits;
use judger::server::{
    accuracy, check_secret, report_of_lang_error, RpcCode, Server,
};

fn limits() -> Limits {
    Limits { wall_ms: 2000, cpu_us: 1_000_000, memory_bytes: 64 << 20, output_bytes: 1024 }
}

fn manifest(uuid: u128, name: &str) -> LanguageManifest {
    LanguageManifest {
        uuid,
        name: String::from(name),
        compile_argv: vec![String::from("/usr/bin/cc"), String::from("src.c")],
        run_argv: vec![String::from("/out")],
        default_limits: limits(),
        compile_limit_multiplier: 10,
        source_filename: String::from("src.c"),
        binary_filename: String::from("out"),
    }
}

fn c_server() -> Server {
    let mut factory = ArtifactFactory::new();
    factory.add_language(manifest(0xff, "C")).unwrap();
    Server::new(factory, 1 << 30, 100, 1000, Some(b"s3cret".to_vec()))
}

#[test]
fn accuracy_is_a_kernel_tick() {
    assert_eq!(accuracy(100), 10000);
    assert_eq!(accuracy(1000), 1000);
    assert_eq!(accuracy(3), 333333);
}

#[test]
fn no_secret_accepts_everything() {
    assert!(check_secret(&None, None).is_ok());
    assert!(check_secret(&None, Some(&b"anything".to_vec())).is_ok());
}

#[test]
fn correct_header_is_accepted() {
    let secret = Some(b"s3cret".to_vec());
    assert!(check_secret(&secret, Some(&b"basic s3cret".to_vec())).is_ok());
}

#[test]
fn missing_or_wrong_header_is_denied() {
    let secret = Some(b"s3cret".to_vec());
    assert_eq!(check_secret(&secret, None).unwrap_err().code, RpcCode::PermissionDenied);
    let e = check_secret(&secret, Some(&b"basic nope!!".to_vec())).unwrap_err();
    assert_eq!(e.code, RpcCode::PermissionDenied);
    assert_eq!(e.message.as_str(), "Invalid secret");
}

#[test]
fn prefix_of_the_expected_header_is_denied() {
    let secret = Some(b"s3cret".to_vec());
    assert!(check_secret(&secret, Some(&b"basic s3c".to_vec())).is_err());
    assert!(check_secret(&secret, Some(&b"basic ".to_vec())).is_err());
    assert!(check_secret(&secret, Some(&b"basic s3cretX".to_vec())).is_err());
}

#[test]
fn precheck_accepts_known_rule_and_uuid() {
    let s = c_server();
    let (rule, uid) = s
        .judge_precheck(0, "00000000-0000-0000-0000-0000000000ff")
        .unwrap();
    assert_eq!(rule, judger::matcher::JudgeMatchRule::ExactSame);
    assert_eq!(uid, 0xff);
    // the registry finds the language the parsed uuid names
    assert_eq!(s.factory.find(uid).unwrap().name.as_str(), "C");
}

#[test]
fn precheck_rejects_unknown_rule() {
    let s = c_server();
    let e = s.judge_precheck(9, "00000000-0000-0000-0000-0000000000ff").unwrap_err();
    assert_eq!(e.code, RpcCode::FailedPrecondition);
    assert_eq!(e.message.as_str(), "Invalid judge matching rule");
}

#[test]
fn precheck_rejects_bad_uuid() {
    let s = c_server();
    let e = s.judge_precheck(0, "not-a-uuid").unwrap_err();
    assert_eq!(e.code, RpcCode::FailedPrecondition);
    assert_eq!(e.message.as_str(), "Invalid uuid");
}

#[test]
fn judger_info_reports_the_configuration() {
    let s = c_server();
    let info = s.judger_info();
    assert_eq!(info.memory, 1 << 30);
    assert_eq!(info.accuracy, 10000);
    assert_eq!(info.cpu_factor_milli, 1000);
    assert_eq!(info.langs.len(), 1);
    assert_eq!(info.langs[0].uuid, 0xff);
    assert_eq!(info.langs[0].name.as_str(), "C");
}

#[test]
fn lang_errors_map_to_their_statuses() {
    let r = report_of_lang_error(LangError::Report(JudgeCode::Ce), 7).unwrap();
    assert_eq!(r.status, JudgeCode::Ce);
    assert_eq!(r.time, 0);
    assert_eq!(r.memory, 0);
    assert_eq!(r.accuracy, 7);

    let e = report_of_lang_error(LangError::Internal(String::from("boom")), 7).unwrap_err();
    assert_eq!(e.code, RpcCode::Internal);

    let e2 = report_of_lang_error(
        LangError::BadRequest(RequestError::LangNotFound(3)),
        7,
    )
    .unwrap_err();
    assert_eq!(e2.code, RpcCode::FailedPrecondition);
}

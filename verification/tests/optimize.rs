use openrustclaw_cli::optimize::{parse_enum, parse_eval_specs};

#[test]
fn eval_specs_split_like_a_shell() {
    let specs = parse_eval_specs(&vec!["unit=cargo test --lib 'a b'".to_string()]).unwrap();
    assert_eq!(specs.len(), 1);
    assert_eq!(specs[0].name, "unit");
    assert_eq!(specs[0].program, "cargo");
    assert_eq!(specs[0].args, vec!["test", "--lib", "a b"]);
    assert_eq!(specs[0].timeout_secs, Some(300));
}

#[test]
fn eval_specs_report_the_first_bad_one() {
    assert_eq!(
        parse_eval_specs(&vec!["ok=true".to_string(), "broken".to_string()]).err().unwrap(),
        "invalid eval 'broken': expected name=command"
    );
    assert_eq!(parse_eval_specs(&vec!["x='open".to_string()]).err().unwrap(), "invalid shell command ''open'");
    assert_eq!(parse_eval_specs(&vec!["x=".to_string()]).err().unwrap(), "empty eval command for 'x'");
}

#[test]
fn enum_errors_name_the_argument() {
    let ok: Result<u8, String> = parse_enum(Ok(3), "3", "level");
    assert_eq!(ok.unwrap(), 3);
    let err: Result<u8, String> = parse_enum(Err("unknown".to_string()), "zz", "level");
    assert_eq!(err.err().unwrap(), "invalid level 'zz': unknown");
}

use rusty_secrets_cli::input::InputSource;
use rusty_secrets_cli::naming::{default_share_template, share_file_name};
use rusty_secrets_cli::text::{decimal, framed};

#[test]
fn decimal_renders_numbers() {
    assert_eq!(decimal(0), "0");
    assert_eq!(decimal(7), "7");
    assert_eq!(decimal(10), "10");
    assert_eq!(decimal(1234), "1234");
    assert_eq!(decimal(usize::MAX), usize::MAX.to_string());
}

#[test]
fn framed_joins_three_parts() {
    assert_eq!(framed("'", "x", "' y"), "'x' y");
    assert_eq!(framed("", "", ""), "");
}

#[test]
fn template_names_shares_in_order() {
    let names: Vec<String> = (0..3).map(|i| share_file_name("part-{{num}}", i)).collect();
    assert_eq!(names, vec!["part-0", "part-1", "part-2"]);
}

#[test]
fn default_template_names_share_zero() {
    let t = default_share_template();
    assert_eq!(t, "share_{{num}}");
    assert_eq!(share_file_name(&t, 0), "share_0");
    assert_eq!(share_file_name(&t, 12), "share_12");
}

#[test]
fn template_edge_cases() {
    assert_eq!(share_file_name("{{num}}", 5), "5");
    assert_eq!(share_file_name("a{{num}}b{{num}}", 1), "a1b{{num}}");
    assert_eq!(share_file_name("plain", 3), "plain");
    assert_eq!(share_file_name("{{nu}}", 3), "{{nu}}");
    assert_eq!(share_file_name("", 3), "");
    assert_eq!(share_file_name("é{{num}}ü", 42), "é42ü");
}

#[test]
fn input_source_from_arg() {
    assert!(matches!(InputSource::from_arg(None), InputSource::Standard));
    assert!(matches!(InputSource::from_arg(Some("-".to_string())), InputSource::Standard));
    match InputSource::from_arg(Some("secret.txt".to_string())) {
        InputSource::File(p) => assert_eq!(p, "secret.txt"),
        InputSource::Standard => panic!("expected a file"),
    }
}

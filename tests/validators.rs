use rusty_secrets_cli::validators;
use rusty_secrets_cli::validators::{
    directory, file_or_stdin, is_stdin_sentinel, mime, not_exists, path_exists,
    strictly_positive, PathKind,
};

#[test]
fn strictly_positive_accepts_counts() {
    assert_eq!(strictly_positive("3".to_string()), Ok(()));
    assert_eq!(strictly_positive("1".to_string()), Ok(()));
    assert_eq!(strictly_positive("255".to_string()), Ok(()));
    assert_eq!(strictly_positive("+7".to_string()), Ok(()));
    assert_eq!(strictly_positive("007".to_string()), Ok(()));
}

#[test]
fn strictly_positive_rejects_zero() {
    assert_eq!(
        strictly_positive("0".to_string()),
        Err("0 is not strictly positive".to_string())
    );
}

#[test]
fn strictly_positive_rejects_non_numbers() {
    assert_eq!(
        strictly_positive("abc".to_string()),
        Err("abc is not a positive number".to_string())
    );
    assert_eq!(
        strictly_positive("256".to_string()),
        Err("256 is not a positive number".to_string())
    );
    assert_eq!(
        strictly_positive("-1".to_string()),
        Err("-1 is not a positive number".to_string())
    );
    assert_eq!(
        strictly_positive("".to_string()),
        Err(" is not a positive number".to_string())
    );
    assert_eq!(
        strictly_positive(" 3".to_string()),
        Err(" 3 is not a positive number".to_string())
    );
}

#[test]
fn path_exists_checks_presence() {
    assert_eq!(path_exists("a".to_string(), PathKind::File), Ok(()));
    assert_eq!(path_exists("a".to_string(), PathKind::Directory), Ok(()));
    assert_eq!(
        path_exists("a".to_string(), PathKind::Missing),
        Err("'a' does not exists".to_string())
    );
}

#[test]
fn not_exists_checks_absence() {
    assert_eq!(not_exists("a".to_string(), PathKind::Missing), Ok(()));
    assert_eq!(
        not_exists("a".to_string(), PathKind::File),
        Err("'a' already exists".to_string())
    );
}

#[test]
fn file_wants_a_regular_file() {
    assert_eq!(validators::file("s.txt".to_string(), PathKind::File), Ok(()));
    assert_eq!(
        validators::file("s.txt".to_string(), PathKind::Missing),
        Err("'s.txt' does not exists".to_string())
    );
    assert_eq!(
        validators::file("out".to_string(), PathKind::Directory),
        Err("'out' is not a file".to_string())
    );
    assert_eq!(
        validators::file("dev".to_string(), PathKind::Other),
        Err("'dev' is not a file".to_string())
    );
}

#[test]
fn file_or_stdin_accepts_the_sentinel() {
    assert_eq!(file_or_stdin("-".to_string(), PathKind::Missing), Ok(()));
    assert_eq!(file_or_stdin("s.txt".to_string(), PathKind::File), Ok(()));
    assert_eq!(
        file_or_stdin("s.txt".to_string(), PathKind::Missing),
        Err("'s.txt' does not exists".to_string())
    );
    assert_eq!(
        file_or_stdin("--".to_string(), PathKind::Directory),
        Err("'--' is not a file".to_string())
    );
    assert!(is_stdin_sentinel("-"));
    assert!(!is_stdin_sentinel("-x"));
    assert!(!is_stdin_sentinel(""));
}

#[test]
fn directory_wants_a_directory() {
    assert_eq!(directory("out".to_string(), PathKind::Directory), Ok(()));
    assert_eq!(
        directory("out".to_string(), PathKind::Missing),
        Err("'out' does not exists".to_string())
    );
    assert_eq!(
        directory("s.txt".to_string(), PathKind::File),
        Err("'s.txt' is not a directory".to_string())
    );
}

#[test]
fn mime_accepts_anything() {
    assert_eq!(mime("text/plain".to_string()), Ok(()));
    assert_eq!(mime("".to_string()), Ok(()));
}

use destinypedia::fetch::cli::{parse_as_dir, parse_as_file};
use tempfile::{NamedTempFile, TempDir};

fn text_of(p: &std::path::Path) -> String {
    p.to_string_lossy().into_owned()
}

#[test]
fn cli_test_parse_dir_success() {
    let dir = TempDir::new().unwrap();
    assert!(parse_as_dir(text_of(dir.path())).is_ok())
}

#[test]
fn cli_test_parse_dir_fail() {
    let not_dir = NamedTempFile::new().unwrap();
    assert!(parse_as_dir(text_of(not_dir.path())).is_err())
}

#[test]
fn cli_test_parse_file_success() {
    let f = NamedTempFile::new().unwrap();
    assert!(parse_as_file(text_of(f.path())).is_ok())
}

#[test]
fn cli_test_parse_file_fail_1() {
    let not_file = TempDir::new().unwrap();
    assert!(parse_as_file(text_of(not_file.path())).is_err())
}

#[test]
fn cli_test_parse_file_fail_2() {
    let f = NamedTempFile::new().unwrap();
    let mut pbuf = f.path().to_path_buf();
    pbuf.push("non-existent-file");
    assert!(parse_as_file(text_of(&pbuf)).is_err())
}

#[test]
fn accepted_paths_come_back_unchanged() {
    let dir = TempDir::new().unwrap();
    let p = text_of(dir.path());
    assert_eq!(parse_as_dir(p.clone()), Ok(p));
}

use tempdir::TempDir;
use try_rs::scan::{first_line, is_git_worktree};

#[test]
fn first_line_basic() {
    let input = b"gitdir: /some/path/to/worktree\n";
    let result = first_line(input);
    assert_eq!(result, "/some/path/to/worktree");
}

#[test]
fn first_line_no_newline() {
    let input = b"gitdir: /path/without/newline";
    let result = first_line(input);
    assert_eq!(result, "/path/without/newline");
}

#[test]
fn first_line_with_multiple_lines() {
    let input = b"gitdir: /path/to/worktree\nother: content\nmore: lines";
    let result = first_line(input);
    assert_eq!(result, "/path/to/worktree");
}

#[test]
fn first_line_empty_after_space() {
    let input = b"gitdir: ";
    let result = first_line(input);
    assert_eq!(result, "");
}

#[test]
fn first_line_without_space() {
    let input = b"nospacehere\nsecondline";
    let result = first_line(input);
    assert_eq!(result, "");
}

#[test]
fn first_line_space_on_later_line() {
    let input = b"nospacehere\nsecond line";
    let result = first_line(input);
    assert_eq!(result, "line");
}

#[test]
fn is_git_worktree_not_worktree() {
    let tmp = TempDir::new("worktree-test").unwrap();
    assert!(!is_git_worktree(tmp.path().to_str().unwrap()));
}

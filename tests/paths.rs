use cdn::errors::CdnError;
use cdn::naming::{choose_filename, generate_filename};
use cdn::paths::{contains_parent_segment, resolve_delete_path, resolve_path, trim_slashes_str};

#[test]
fn trims_outer_slashes_only() {
    assert_eq!(trim_slashes_str("//pics/cats//"), "pics/cats");
    assert_eq!(trim_slashes_str("pics"), "pics");
    assert_eq!(trim_slashes_str("///"), "");
    assert_eq!(trim_slashes_str(""), "");
}

#[test]
fn finds_parent_segments() {
    assert!(contains_parent_segment(".."));
    assert!(contains_parent_segment("../etc"));
    assert!(contains_parent_segment("pics/../etc"));
    assert!(contains_parent_segment("pics/.."));
    assert!(!contains_parent_segment("a..b"));
    assert!(!contains_parent_segment("..."));
    assert!(!contains_parent_segment("pics/.hidden"));
    assert!(!contains_parent_segment(""));
}

#[test]
fn resolves_into_directory() {
    let r = resolve_path(&Some("/pics/".to_string()), "abc.png").unwrap();
    assert_eq!(r.file, "./uploads/pics/abc.png");
    assert_eq!(r.parent, "./uploads/pics");
    assert_eq!(r.relative, "/pics/abc.png");
}

#[test]
fn resolves_nested_directory() {
    let r = resolve_path(&Some("a/b/c".to_string()), "x.txt").unwrap();
    assert_eq!(r.file, "./uploads/a/b/c/x.txt");
    assert_eq!(r.parent, "./uploads/a/b/c");
    assert_eq!(r.relative, "/a/b/c/x.txt");
}

#[test]
fn absent_or_empty_directory_is_root() {
    let r = resolve_path(&None, "abc.png").unwrap();
    assert_eq!(r.file, "./uploads/abc.png");
    assert_eq!(r.parent, "./uploads");
    assert_eq!(r.relative, "/abc.png");
    let r = resolve_path(&Some("//".to_string()), "abc.png").unwrap();
    assert_eq!(r.relative, "/abc.png");
}

#[test]
fn traversal_is_rejected() {
    assert_eq!(resolve_path(&Some("../etc".to_string()), "a").unwrap_err(), CdnError::InvalidPath);
    assert_eq!(resolve_path(&Some("pics/..".to_string()), "a").unwrap_err(), CdnError::InvalidPath);
    assert_eq!(resolve_path(&None, "..").unwrap_err(), CdnError::InvalidPath);
    assert_eq!(resolve_path(&None, "a/b").unwrap_err(), CdnError::InvalidPath);
    assert!(resolve_path(&None, "a..b").is_ok());
}

#[test]
fn delete_path_is_rooted() {
    assert_eq!(resolve_delete_path("/pics/abc.png").unwrap(), "./uploads/pics/abc.png");
    assert_eq!(resolve_delete_path("pics/abc.png/").unwrap(), "./uploads/pics/abc.png");
    assert_eq!(resolve_delete_path("pics/../../etc").unwrap_err(), CdnError::InvalidPath);
    assert_eq!(resolve_delete_path("/").unwrap_err(), CdnError::InvalidPath);
}

#[test]
fn generated_name_is_ten_alphanumerics() {
    let name = generate_filename();
    assert_eq!(name.chars().count(), 10);
    assert!(name.chars().all(|c| c.is_ascii_alphanumeric()));
}

#[test]
fn declared_name_is_kept() {
    assert_eq!(choose_filename(Some("cat.png".to_string())), "cat.png");
    let name = choose_filename(None);
    assert_eq!(name.len(), 10);
    assert!(name.chars().all(|c| c.is_ascii_alphanumeric()));
}

use shell_bridge::envelope::{classification_result, CustomResult, Payload};
use shell_bridge::paths::{classify_paths, PathEntry, PathKind};

fn entry(path: &str, kind: PathKind) -> PathEntry {
    PathEntry { path: path.to_string(), kind }
}

#[test]
fn classify_splits_files_and_folders_in_order() {
    let entries = vec![
        entry("/home/user/document.txt", PathKind::File),
        entry("/home/user/pictures", PathKind::Directory),
        entry("/home/user/gone", PathKind::Missing),
        entry("/dev/null", PathKind::Other),
        entry("/home/user/b.txt", PathKind::File),
        entry("/tmp", PathKind::Directory),
    ];
    let r = classify_paths(entries);
    assert_eq!(r.files, vec!["/home/user/document.txt".to_string(), "/home/user/b.txt".to_string()]);
    assert_eq!(r.folders, vec!["/home/user/pictures".to_string(), "/tmp".to_string()]);
}

#[test]
fn classify_empty_list_gives_empty_lists() {
    let r = classify_paths(Vec::new());
    assert!(r.files.is_empty());
    assert!(r.folders.is_empty());
    match classification_result(r) {
        Ok(CustomResult::Success { message: None, data: Some(Payload::Classified(c)) }) => {
            assert!(c.files.is_empty());
            assert!(c.folders.is_empty());
        }
        _ => panic!("classification must succeed"),
    }
}

#[test]
fn classify_partitions_existing_paths() {
    let entries = vec![
        entry("a", PathKind::File),
        entry("b", PathKind::Missing),
        entry("c", PathKind::Directory),
        entry("a", PathKind::File),
        entry("d", PathKind::Missing),
    ];
    let r = classify_paths(entries);
    assert_eq!(r.files.len() + r.folders.len(), 3);
    assert!(!r.files.contains(&"b".to_string()) && !r.folders.contains(&"b".to_string()));
    assert!(!r.files.contains(&"d".to_string()) && !r.folders.contains(&"d".to_string()));
    assert_eq!(r.files, vec!["a".to_string(), "a".to_string()]);
    assert_eq!(r.folders, vec!["c".to_string()]);
}

#[test]
fn classify_all_missing_gives_nothing() {
    let r = classify_paths(vec![entry("x", PathKind::Missing), entry("y", PathKind::Other)]);
    assert!(r.files.is_empty());
    assert!(r.folders.is_empty());
}

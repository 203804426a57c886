use rstow::operations::{FSOperation, StowError, TraversOperation};
use rstow::stow::{classify, should_descend, stow_path, Policy};
use rstow::test_utils::with_test_directories;

const NO_FORCE: bool = false;
const NO_BACKUP: bool = false;

#[test]
fn test_stow_file() {
    with_test_directories(|source: String, target: String| {
        let source_file = format!("{}/file.txt", source);
        let target_file = format!("{}/file.txt", target);

        let mut operations: Vec<FSOperation> = Vec::new();
        let classification = classify(false, false, false, false);
        let policy = Policy { force: NO_FORCE, backup: NO_BACKUP };
        let result = stow_path(
            &source_file,
            &target_file,
            &classification,
            &policy,
            &mut operations,
        )
        .expect("An error occurred when visiting directories");

        assert_eq!(result, TraversOperation::Continue);

        let mut iter = operations.iter();
        let value = iter.next().unwrap();
        assert_eq!(
            value,
            &FSOperation::CreateSymlink { source: source_file, target: target_file }
        );
    });
}

#[test]
fn test_stow_directory() {
    with_test_directories(|source: String, target: String| {
        let source_dir = format!("{}/subDir", source);
        let target_dir = format!("{}/subDir", target);

        let mut operations: Vec<FSOperation> = Vec::new();
        let classification = classify(false, false, true, false);
        let policy = Policy { force: NO_FORCE, backup: NO_BACKUP };
        let result = stow_path(
            &source_dir,
            &target_dir,
            &classification,
            &policy,
            &mut operations,
        )
        .expect("An error occurred when visiting directories");

        assert_eq!(result, TraversOperation::StopPathRun);

        let mut iter = operations.iter();
        let value = iter.next().unwrap();
        assert_eq!(
            value,
            &FSOperation::CreateSymlink { source: source_dir, target: target_dir }
        );
    });
}

#[test]
fn test_stow_existing_file() {
    with_test_directories(|source: String, target: String| {
        let source_file = format!("{}/file.txt", source);
        let target_file = format!("{}/file.txt", target);

        let mut operations: Vec<FSOperation> = Vec::new();
        let classification = classify(true, false, false, false);
        let policy = Policy { force: NO_FORCE, backup: NO_BACKUP };
        let result = stow_path(
            &source_file,
            &target_file,
            &classification,
            &policy,
            &mut operations,
        );

        // return an error
        assert!(result.is_err());
        assert!(operations.is_empty());
    });
}

#[test]
fn test_stow_valid_symlink_is_noop() {
    let mut operations: Vec<FSOperation> = Vec::new();
    let classification = classify(true, true, false, true);
    let policy = Policy { force: NO_FORCE, backup: NO_BACKUP };
    let result = stow_path(
        "/tmp/source/file.txt",
        "/tmp/target/file.txt",
        &classification,
        &policy,
        &mut operations,
    )
    .expect("a valid symlink must not conflict");

    assert_eq!(result, TraversOperation::StopPathRun);
    assert!(operations.is_empty());
}

#[test]
fn test_stow_stale_symlink_overridden_without_force() {
    let mut operations: Vec<FSOperation> = Vec::new();
    let classification = classify(true, true, false, false);
    let policy = Policy { force: NO_FORCE, backup: NO_BACKUP };
    let result = stow_path(
        "/tmp/source/file.txt",
        "/tmp/target/file.txt",
        &classification,
        &policy,
        &mut operations,
    )
    .expect("a stale symlink must not conflict");

    assert_eq!(result, TraversOperation::Continue);
    assert_eq!(operations.len(), 1);
    assert_eq!(
        &operations[0],
        &FSOperation::CreateSymlink {
            source: String::from("/tmp/source/file.txt"),
            target: String::from("/tmp/target/file.txt"),
        }
    );
}

#[test]
fn test_stow_stale_symlink_overridden_with_force() {
    let mut operations: Vec<FSOperation> = Vec::new();
    let classification = classify(true, true, false, false);
    let policy = Policy { force: true, backup: NO_BACKUP };
    let result = stow_path(
        "/tmp/source/file.txt",
        "/tmp/target/file.txt",
        &classification,
        &policy,
        &mut operations,
    )
    .expect("a stale symlink must not conflict");

    assert_eq!(result, TraversOperation::Continue);
    assert_eq!(operations.len(), 1);
    assert_eq!(
        &operations[0],
        &FSOperation::CreateSymlink {
            source: String::from("/tmp/source/file.txt"),
            target: String::from("/tmp/target/file.txt"),
        }
    );
}

#[test]
fn test_stow_stale_symlink_to_directory_stops() {
    let mut operations: Vec<FSOperation> = Vec::new();
    let classification = classify(true, true, true, false);
    let policy = Policy { force: NO_FORCE, backup: NO_BACKUP };
    let result = stow_path(
        "/tmp/source/subDir",
        "/tmp/target/subDir",
        &classification,
        &policy,
        &mut operations,
    )
    .expect("a stale symlink must not conflict");

    assert_eq!(result, TraversOperation::StopPathRun);
    assert_eq!(operations.len(), 1);
    assert_eq!(
        &operations[0],
        &FSOperation::CreateSymlink {
            source: String::from("/tmp/source/subDir"),
            target: String::from("/tmp/target/subDir"),
        }
    );
}

#[test]
fn test_stow_existing_file_force_backup() {
    let mut operations: Vec<FSOperation> = Vec::new();
    let classification = classify(true, false, false, false);
    let policy = Policy { force: true, backup: true };
    let result = stow_path(
        "/tmp/source/file.txt",
        "/tmp/target/file.txt",
        &classification,
        &policy,
        &mut operations,
    )
    .expect("force must override the existing file");

    assert_eq!(result, TraversOperation::Continue);
    assert_eq!(operations.len(), 2);
    assert_eq!(&operations[0], &FSOperation::Backup(String::from("/tmp/target/file.txt")));
    assert_eq!(
        &operations[1],
        &FSOperation::CreateSymlink {
            source: String::from("/tmp/source/file.txt"),
            target: String::from("/tmp/target/file.txt"),
        }
    );
}

#[test]
fn test_stow_existing_file_force_delete() {
    let mut operations: Vec<FSOperation> = Vec::new();
    let classification = classify(true, false, false, false);
    let policy = Policy { force: true, backup: false };
    let result = stow_path(
        "/tmp/source/file.txt",
        "/tmp/target/file.txt",
        &classification,
        &policy,
        &mut operations,
    )
    .expect("force must override the existing file");

    assert_eq!(result, TraversOperation::Continue);
    assert_eq!(operations.len(), 2);
    assert_eq!(&operations[0], &FSOperation::Delete(String::from("/tmp/target/file.txt")));
    assert_eq!(
        &operations[1],
        &FSOperation::CreateSymlink {
            source: String::from("/tmp/source/file.txt"),
            target: String::from("/tmp/target/file.txt"),
        }
    );
}

#[test]
fn test_stow_existing_directory_merges() {
    let mut operations: Vec<FSOperation> = Vec::new();
    let classification = classify(true, false, true, false);
    let policy = Policy { force: NO_FORCE, backup: NO_BACKUP };
    let result = stow_path(
        "/tmp/source/subDir",
        "/tmp/target/subDir",
        &classification,
        &policy,
        &mut operations,
    )
    .expect("an existing real directory is merged, not a conflict");

    assert_eq!(result, TraversOperation::Continue);
    assert!(operations.is_empty());
}

#[test]
fn test_stow_conflict_carries_target_path() {
    let mut operations: Vec<FSOperation> = Vec::new();
    let classification = classify(true, false, false, false);
    let policy = Policy { force: NO_FORCE, backup: NO_BACKUP };
    let result = stow_path(
        "/tmp/source/file.txt",
        "/tmp/target/file.txt",
        &classification,
        &policy,
        &mut operations,
    );

    match result {
        Err(StowError::Conflict(path)) => assert_eq!(path, "/tmp/target/file.txt"),
        other => panic!("expected a conflict, got {:?}", other),
    }
}

#[test]
fn test_should_descend_only_into_merged_directories() {
    assert!(should_descend(TraversOperation::Continue, true));
    assert!(!should_descend(TraversOperation::Continue, false));
    assert!(!should_descend(TraversOperation::StopPathRun, true));
    assert!(!should_descend(TraversOperation::StopPathRun, false));
}

#[test]
fn test_classify_link_match_needs_symlink() {
    // A link value match counts only when the target really is a symlink.
    let classification = classify(true, false, false, true);
    assert!(!classification.symlink_points_to_source);

    let classification = classify(true, true, false, true);
    assert!(classification.symlink_points_to_source);
}

use rstow::test_utils::with_test_directories;

#[test]
fn test_with_test_directories_paths() {
    let mut ran = false;
    with_test_directories(|source: String, target: String| {
        assert_eq!(source, "/tmp/source");
        assert_eq!(target, "/tmp/target");
        ran = true;
    });
    assert!(ran);
}

use lazybucket::records::storage_path;
use lazybucket::storage::{join, LocalStorage};

#[test]
fn new_keeps_base_path() {
    let storage = LocalStorage::new("./storage");
    assert_eq!(storage.base_path, "./storage");
}

#[test]
fn object_path_joins_bucket_and_key() {
    let storage = LocalStorage::new("/data/storage");
    assert_eq!(storage.object_path("bucket", "file.txt"), "/data/storage/bucket/file.txt");
}

#[test]
fn object_path_keeps_nested_key() {
    let storage = LocalStorage::new("./storage");
    assert_eq!(storage.object_path("bucket", "a/b/c.txt"), "./storage/bucket/a/b/c.txt");
}

#[test]
fn object_path_with_trailing_separator_in_base() {
    let storage = LocalStorage::new("/tmp/root/");
    assert_eq!(storage.object_path("b", "k"), "/tmp/root/b/k");
}

#[test]
fn object_path_with_absolute_key_replaces_everything() {
    let storage = LocalStorage::new("/tmp/root");
    assert_eq!(storage.object_path("b", "/etc/passwd"), "/etc/passwd");
}

#[test]
fn object_path_with_empty_base() {
    let storage = LocalStorage::new("");
    assert_eq!(storage.object_path("b", "k"), "b/k");
}

#[test]
fn object_path_matches_std_path_join() {
    let cases = [
        ("/data", "bucket", "file.txt"),
        ("./storage", "bucket", "a/b/c.txt"),
        ("/data/", "bucket/", "k"),
        ("", "bucket", "k"),
        ("/data", "/abs", "k"),
        ("/data", "b", "/abs/k"),
        ("rel", "b", ""),
    ];
    for (base, bucket, key) in cases {
        let expected = std::path::PathBuf::from(base).join(bucket).join(key);
        let got = LocalStorage::new(base).object_path(bucket, key);
        assert_eq!(std::path::PathBuf::from(got), expected);
    }
}

#[test]
fn join_cases() {
    assert_eq!(join("a", "b"), "a/b");
    assert_eq!(join("a/", "b"), "a/b");
    assert_eq!(join("a", "/b"), "/b");
    assert_eq!(join("", "b"), "b");
    assert_eq!(join("a", ""), "a/");
}

#[test]
fn storage_path_is_bucket_slash_key() {
    assert_eq!(storage_path("test-bucket", "hello.txt"), "test-bucket/hello.txt");
    assert_eq!(storage_path("b", "cats/a.jpg"), "b/cats/a.jpg");
}

#[test]
fn distinct_relative_keys_get_distinct_files() {
    let storage = LocalStorage::new("/data");
    let keys = ["a", "a/b", "ab", "b", "", "a/", "x.txt"];
    for k1 in keys {
        for k2 in keys {
            if k1 != k2 {
                assert_ne!(storage.object_path("bucket", k1), storage.object_path("bucket", k2));
            }
        }
    }
}

#[test]
fn absolute_key_can_meet_a_relative_one() {
    let storage = LocalStorage::new("/data");
    assert_eq!(storage.object_path("b", "/data/b/k"), storage.object_path("b", "k"));
}

use lazybucket::digest::{etag_of, etag_of_digest};
use lazybucket::records::{
    bucket_infos, download_content_type, object_infos, prefix_pattern, Bucket, Object, ObjectInfo,
};

const HELLO_SHA256: &str = "2cf24dba5fb0a30e26e83b2ac5b9e29e1b161e5c1fa7425e73043362938b9824";
const EMPTY_SHA256: &str = "e3b0c44298fc1c149afbf4c8996fb92427ae41e4649b934ca495991b7852b855";

#[test]
fn etag_is_hex_sha256() {
    assert_eq!(etag_of(b"hello"), HELLO_SHA256);
    assert_eq!(etag_of(b""), EMPTY_SHA256);
    assert_eq!(etag_of(b"data").len(), 64);
}

#[test]
fn upload_record_fields() {
    let obj = Object::from_upload("bucket", "a/b.txt", b"hello", Some("text/plain".to_string()));
    assert_eq!(obj.bucket, "bucket");
    assert_eq!(obj.key, "a/b.txt");
    assert_eq!(obj.size, 5);
    assert_eq!(obj.content_type, Some("text/plain".to_string()));
    assert_eq!(obj.etag, HELLO_SHA256);
    assert_eq!(obj.storage_path, "bucket/a/b.txt");
    assert_eq!(obj.created_at, "");
}

#[test]
fn upload_record_without_content_type() {
    let obj = Object::from_upload("b", "k", b"", None);
    assert_eq!(obj.size, 0);
    assert_eq!(obj.content_type, None);
    assert_eq!(obj.etag, EMPTY_SHA256);
}

fn make_object(key: &str) -> Object {
    Object {
        bucket: "test-bucket".to_string(),
        key: key.to_string(),
        size: 42,
        content_type: Some("text/plain".to_string()),
        etag: "abc123".to_string(),
        storage_path: format!("test-bucket/{}", key),
        created_at: "2024-01-01 00:00:00".to_string(),
    }
}

#[test]
fn listing_keeps_order_and_fields() {
    let infos = object_infos(vec![make_object("cats/a.jpg"), make_object("cats/b.jpg"), make_object("dogs/c.jpg")]);
    assert_eq!(infos.len(), 3);
    let keys: Vec<&str> = infos.iter().map(|i| i.key.as_str()).collect();
    assert_eq!(keys, vec!["cats/a.jpg", "cats/b.jpg", "dogs/c.jpg"]);
    let ObjectInfo { key, size, content_type, etag } = &infos[0];
    assert_eq!(key, "cats/a.jpg");
    assert_eq!(*size, 42);
    assert_eq!(content_type.as_deref(), Some("text/plain"));
    assert_eq!(etag, "abc123");
    assert!(object_infos(Vec::new()).is_empty());
}

#[test]
fn object_info_from_object() {
    let info = ObjectInfo::from_object(make_object("x"));
    assert_eq!(info.key, "x");
    assert_eq!(info.size, 42);
    assert_eq!(info.etag, "abc123");
}

#[test]
fn bucket_listing() {
    let infos = bucket_infos(vec![
        Bucket { name: "a".to_string(), created_at: "t1".to_string() },
        Bucket { name: "b".to_string(), created_at: "t2".to_string() },
    ]);
    assert_eq!(infos.len(), 2);
    assert_eq!(infos[0].name, "a");
    assert_eq!(infos[0].created_at, "t1");
    assert_eq!(infos[1].name, "b");
    assert_eq!(infos[1].created_at, "t2");
}

#[test]
fn download_content_type_default() {
    assert_eq!(download_content_type(Some("image/png".to_string())), "image/png");
    assert_eq!(download_content_type(None), "application/octet-stream");
}

#[test]
fn prefix_pattern_appends_percent() {
    assert_eq!(prefix_pattern("cats/"), "cats/%");
    assert_eq!(prefix_pattern(""), "%");
}

#[test]
fn etag_of_given_digest() {
    assert_eq!(etag_of_digest(&[0x01, 0xab, 0xff, 0x00]), "01abff00");
    assert_eq!(etag_of_digest(&[]), "");
}

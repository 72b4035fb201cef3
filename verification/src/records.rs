use vstd::prelude::*;
use vstd::string::*;

use crate::digest::{etag_of, hex_lower, sha256};

verus! {

/// A row of the objects table: the metadata of one stored object.
pub struct Object {
    pub bucket: String,
    pub key: String,
    pub size: i64,
    pub content_type: Option<String>,
    pub etag: String,
    pub storage_path: String,
    pub created_at: String,
}

/// A row of the buckets table.
pub struct Bucket {
    pub name: String,
    pub created_at: String,
}

/// The body of a bucket rename request: the new name.
pub struct PatchBucketRequest {
    pub name: String,
}

/// What a bucket listing reports of each bucket.
pub struct BucketInfo {
    pub name: String,
    pub created_at: String,
}

/// The body of an object rename request: the new key.
pub struct RenameObjectRequest {
    pub key: String,
}

/// The query of an object listing: an optional key prefix.
pub struct ListQuery {
    pub prefix: Option<String>,
}

/// What an object listing reports of each object.
pub struct ObjectInfo {
    pub key: String,
    pub size: i64,
    pub content_type: Option<String>,
    pub etag: String,
}

/// The storage path recorded for an object: bucket and key joined by `/`.
pub open spec fn spec_storage_path(bucket: Seq<char>, key: Seq<char>) -> Seq<char> {
    bucket + seq!['/'] + key
}

/// Computes `spec_storage_path(bucket, key)`.
pub fn storage_path(bucket: &str, key: &str) -> (res: String)
    ensures
        res@ == spec_storage_path(bucket@, key@),
        res@ == bucket@ + seq!['/'] + key@,
{
    let mut res = bucket.to_owned();
    res.append("/");
    proof { reveal_strlit("/"); }
    res.append(key);
    res
}

/// The `LIKE` pattern that selects the keys starting with `prefix`: the
/// prefix followed by `%`.
pub fn prefix_pattern(prefix: &str) -> (res: String)
    ensures
        res@ == prefix@ + seq!['%'],
{
    let mut res = prefix.to_owned();
    res.append("%");
    proof { reveal_strlit("%"); }
    res
}

/// The recorded storage path is the bucket, a single `/`, then the key,
/// whatever their lengths.
pub proof fn lemma_storage_path_layout(bucket: Seq<char>, key: Seq<char>)
    ensures
        spec_storage_path(bucket, key).len() == bucket.len() + 1 + key.len(),
        spec_storage_path(bucket, key).take(bucket.len() as int) == bucket,
        spec_storage_path(bucket, key)[bucket.len() as int] == '/',
        spec_storage_path(bucket, key).skip(bucket.len() as int + 1) == key,
{
    let p = spec_storage_path(bucket, key);
    assert(p.take(bucket.len() as int) =~= bucket);
    assert(p.skip(bucket.len() as int + 1) =~= key);
}

/// A listing reports each object's own key, size, content type and tag,
/// whatever else the object holds.
pub proof fn lemma_listing_keeps_object_fields(obj: Object)
    ensures
        info_of(obj).key == obj.key,
        info_of(obj).size == obj.size,
        info_of(obj).content_type == obj.content_type,
        info_of(obj).etag == obj.etag,
{
}

/// A bucket listing reports each bucket's own name and creation time.
pub proof fn lemma_listing_keeps_bucket_fields(bucket: Bucket)
    ensures
        bucket_info_of(bucket).name == bucket.name,
        bucket_info_of(bucket).created_at == bucket.created_at,
{
}

/// Listing a sequence of objects keeps their order and each one's fields.
pub proof fn lemma_object_listing_in_order(objects: Seq<Object>, listing: Seq<ObjectInfo>)
    requires
        listing == objects.map_values(|o: Object| info_of(o)),
    ensures
        listing.len() == objects.len(),
        forall|i: int| 0 <= i < objects.len() ==> {
            &&& #[trigger] listing[i].key == objects[i].key
            &&& listing[i].size == objects[i].size
            &&& listing[i].content_type == objects[i].content_type
            &&& listing[i].etag == objects[i].etag
        },
{
}

/// Listing a sequence of buckets keeps their order and each one's fields.
pub proof fn lemma_bucket_listing_in_order(buckets: Seq<Bucket>, listing: Seq<BucketInfo>)
    requires
        listing == buckets.map_values(|b: Bucket| bucket_info_of(b)),
    ensures
        listing.len() == buckets.len(),
        forall|i: int| 0 <= i < buckets.len() ==> {
            &&& #[trigger] listing[i].name == buckets[i].name
            &&& listing[i].created_at == buckets[i].created_at
        },
{
}

impl Object {
    /// The record that an upload of `body` under `bucket`/`key` stores: its
    /// size in bytes, the content type the client sent, the hex SHA-256 of the
    /// body as entity tag, and the path `bucket/key`. The creation time is left
    /// empty: the database stamps it when the row is inserted.
    pub fn from_upload(bucket: &str, key: &str, body: &[u8], content_type: Option<String>) -> (obj: Object)
        requires
            body@.len() <= i64::MAX,
        ensures
            obj.bucket@ == bucket@,
            obj.key@ == key@,
            obj.size == body@.len(),
            obj.content_type == content_type,
            obj.etag@ == hex_lower(sha256(body@)),
            obj.etag@.len() == 64,
            obj.storage_path@ == spec_storage_path(bucket@, key@),
            obj.storage_path@ == bucket@ + seq!['/'] + key@,
            obj.created_at@ == Seq::<char>::empty(),
    {
        let size = body.len() as i64;
        Object {
            bucket: bucket.to_owned(),
            key: key.to_owned(),
            size,
            content_type,
            etag: etag_of(body),
            storage_path: storage_path(bucket, key),
            created_at: String::new(),
        }
    }
}

/// What a listing reports of an object: its key, size, content type and tag.
pub open spec fn info_of(obj: Object) -> ObjectInfo {
    ObjectInfo { key: obj.key, size: obj.size, content_type: obj.content_type, etag: obj.etag }
}

/// What a listing reports of a bucket: its name and creation time.
pub open spec fn bucket_info_of(bucket: Bucket) -> BucketInfo {
    BucketInfo { name: bucket.name, created_at: bucket.created_at }
}

impl ObjectInfo {
    /// Computes `info_of(obj)`.
    pub fn from_object(obj: Object) -> (res: ObjectInfo)
        ensures
            res == info_of(obj),
            res.key == obj.key,
            res.size == obj.size,
            res.content_type == obj.content_type,
            res.etag == obj.etag,
    {
        ObjectInfo { key: obj.key, size: obj.size, content_type: obj.content_type, etag: obj.etag }
    }
}

impl BucketInfo {
    /// Computes `bucket_info_of(bucket)`.
    pub fn from_bucket(bucket: Bucket) -> (res: BucketInfo)
        ensures
            res == bucket_info_of(bucket),
            res.name == bucket.name,
            res.created_at == bucket.created_at,
    {
        BucketInfo { name: bucket.name, created_at: bucket.created_at }
    }
}

/// The listing of a sequence of objects, in the same order.
pub fn object_infos(objects: Vec<Object>) -> (res: Vec<ObjectInfo>)
    ensures
        res@ == objects@.map_values(|o: Object| info_of(o)),
        res@.len() == objects@.len(),
        forall|i: int| 0 <= i < objects@.len() ==> {
            &&& #[trigger] res@[i].key == objects@[i].key
            &&& res@[i].size == objects@[i].size
            &&& res@[i].content_type == objects@[i].content_type
            &&& res@[i].etag == objects@[i].etag
        },
{
    let ghost all = objects@;
    let mut res: Vec<ObjectInfo> = Vec::new();
    for obj in it: objects
        invariant
            it.seq() == all,
            res@.len() == it.index(),
            forall|j: int| 0 <= j < res@.len() ==> #[trigger] res@[j] == info_of(all[j]),
    {
        res.push(ObjectInfo::from_object(obj));
    }
    assert(res@ =~= all.map_values(|o: Object| info_of(o)));
    res
}

/// The listing of a sequence of buckets, in the same order.
pub fn bucket_infos(buckets: Vec<Bucket>) -> (res: Vec<BucketInfo>)
    ensures
        res@ == buckets@.map_values(|b: Bucket| bucket_info_of(b)),
        res@.len() == buckets@.len(),
        forall|i: int| 0 <= i < buckets@.len() ==> {
            &&& #[trigger] res@[i].name == buckets@[i].name
            &&& res@[i].created_at == buckets@[i].created_at
        },
{
    let ghost all = buckets@;
    let mut res: Vec<BucketInfo> = Vec::new();
    for bucket in it: buckets
        invariant
            it.seq() == all,
            res@.len() == it.index(),
            forall|j: int| 0 <= j < res@.len() ==> #[trigger] res@[j] == bucket_info_of(all[j]),
    {
        res.push(BucketInfo::from_bucket(bucket));
    }
    assert(res@ =~= all.map_values(|b: Bucket| bucket_info_of(b)));
    res
}

/// The content type a download is served with: the one recorded for the
/// object, or `application/octet-stream` when none was recorded.
pub fn download_content_type(recorded: Option<String>) -> (res: String)
    ensures
        recorded is Some ==> res@ == recorded->0@,
        recorded is None ==> res@ == "application/octet-stream"@,
{
    match recorded {
        Some(ct) => ct,
        None => "application/octet-stream".to_owned(),
    }
}

} // verus!

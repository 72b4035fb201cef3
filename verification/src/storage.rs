use vstd::prelude::*;
use vstd::string::*;

verus! {

/// Joins `segment` onto `base` the way a Unix path join does: an absolute
/// segment replaces the base; otherwise a `/` separates the two unless the
/// base is empty or already ends with one.
pub open spec fn join_path(base: Seq<char>, segment: Seq<char>) -> Seq<char> {
    if segment.len() > 0 && segment[0] == '/' {
        segment
    } else if base.len() == 0 || base[base.len() - 1] == '/' {
        base + segment
    } else {
        base + seq!['/'] + segment
    }
}

/// Joining relative segments onto one base never makes two of them meet:
/// distinct relative segments give distinct paths.
pub proof fn lemma_join_relative_injective(base: Seq<char>, a: Seq<char>, b: Seq<char>)
    requires
        !(a.len() > 0 && a[0] == '/'),
        !(b.len() > 0 && b[0] == '/'),
        join_path(base, a) == join_path(base, b),
    ensures
        a == b,
{
    let prefix = if base.len() == 0 || base[base.len() - 1] == '/' { base } else { base + seq!['/'] };
    assert(join_path(base, a) =~= prefix + a);
    assert(join_path(base, b) =~= prefix + b);
    assert(a =~= (prefix + a).skip(prefix.len() as int));
    assert(b =~= (prefix + b).skip(prefix.len() as int));
}

/// What a join gives, case by case: an absolute segment alone; a relative
/// segment after the base and one `/` when the base is non-empty and does not
/// end in `/`; otherwise the base directly followed by the segment. The
/// length of the base plays no part.
pub proof fn lemma_join_cases(base: Seq<char>, segment: Seq<char>)
    ensures
        segment.len() > 0 && segment[0] == '/' ==> join_path(base, segment) == segment,
        !(segment.len() > 0 && segment[0] == '/') && base.len() > 0 && base.last() != '/'
            ==> join_path(base, segment) == base + seq!['/'] + segment,
        !(segment.len() > 0 && segment[0] == '/') && (base.len() == 0 || base.last() == '/')
            ==> join_path(base, segment) == base + segment,
        !(segment.len() > 0 && segment[0] == '/') ==> join_path(base, segment).take(base.len() as int) == base,
{
    if !(segment.len() > 0 && segment[0] == '/') {
        if base.len() > 0 && base.last() != '/' {
            assert((base + seq!['/'] + segment).take(base.len() as int) =~= base);
        } else {
            assert((base + segment).take(base.len() as int) =~= base);
        }
    }
}

/// An object's file is the base path, `/`, the bucket, `/`, and the key, for
/// a base that is non-empty and does not end in `/`, a bucket that is
/// non-empty and neither starts nor ends with `/`, and a relative key.
pub proof fn lemma_object_path_layout(base: Seq<char>, bucket: Seq<char>, key: Seq<char>)
    requires
        base.len() > 0,
        base.last() != '/',
        bucket.len() > 0,
        bucket[0] != '/',
        bucket.last() != '/',
        !(key.len() > 0 && key[0] == '/'),
    ensures
        join_path(join_path(base, bucket), key) == base + seq!['/'] + bucket + seq!['/'] + key,
        join_path(join_path(base, bucket), key).len() == base.len() + bucket.len() + key.len() + 2,
{
    lemma_join_cases(base, bucket);
    let dir = base + seq!['/'] + bucket;
    assert(dir.last() == bucket.last());
    lemma_join_cases(dir, key);
}

/// Computes `join_path(base, segment)` as a new string.
pub fn join(base: &str, segment: &str) -> (res: String)
    ensures
        res@ == join_path(base@, segment@),
        segment@.len() > 0 && segment@[0] == '/' ==> res@ == segment@,
        !(segment@.len() > 0 && segment@[0] == '/') && base@.len() > 0 && base@.last() != '/'
            ==> res@ == base@ + seq!['/'] + segment@,
        !(segment@.len() > 0 && segment@[0] == '/') && (base@.len() == 0 || base@.last() == '/')
            ==> res@ == base@ + segment@,
{
    let seg_len = segment.unicode_len();
    if seg_len > 0 && segment.get_char(0) == '/' {
        return segment.to_owned();
    }
    let base_len = base.unicode_len();
    let mut res = base.to_owned();
    if base_len > 0 && base.get_char(base_len - 1) != '/' {
        res.append("/");
        proof { reveal_strlit("/"); }
    }
    res.append(segment);
    res
}

/// Objects stored as plain files under a base directory, one directory per bucket.
pub struct LocalStorage {
    pub base_path: String,
}

impl LocalStorage {
    /// A storage rooted at `base_path`.
    pub fn new(base_path: &str) -> (res: Self)
        ensures
            res.base_path@ == base_path@,
    {
        LocalStorage { base_path: base_path.to_owned() }
    }

    /// The file that holds object `key` of `bucket`: the base path joined with
    /// the bucket name, then with the key.
    pub fn object_path(&self, bucket: &str, key: &str) -> (res: String)
        ensures
            res@ == join_path(join_path(self.base_path@, bucket@), key@),
            self.base_path@.len() > 0 && self.base_path@.last() != '/'
                && bucket@.len() > 0 && bucket@[0] != '/' && bucket@.last() != '/'
                && !(key@.len() > 0 && key@[0] == '/')
                ==> res@ == self.base_path@ + seq!['/'] + bucket@ + seq!['/'] + key@,
    {
        proof {
            lemma_join_cases(self.base_path@, bucket@);
            if self.base_path@.len() > 0 && self.base_path@.last() != '/'
                && bucket@.len() > 0 && bucket@[0] != '/' && bucket@.last() != '/'
                && !(key@.len() > 0 && key@[0] == '/') {
                lemma_object_path_layout(self.base_path@, bucket@, key@);
            }
        }
        let dir = join(self.base_path.as_str(), bucket);
        assert(dir@ == join_path(self.base_path@, bucket@));
        join(dir.as_str(), key)
    }
}

/// Within one bucket, objects whose keys are relative (do not start with
/// `/`) and differ are kept in different files.
pub proof fn lemma_distinct_keys_distinct_files(storage: LocalStorage, bucket: Seq<char>, a: Seq<char>, b: Seq<char>)
    requires
        !(a.len() > 0 && a[0] == '/'),
        !(b.len() > 0 && b[0] == '/'),
        a != b,
    ensures
        join_path(join_path(storage.base_path@, bucket), a) != join_path(join_path(storage.base_path@, bucket), b),
{
    if join_path(join_path(storage.base_path@, bucket), a) == join_path(join_path(storage.base_path@, bucket), b) {
        lemma_join_relative_injective(join_path(storage.base_path@, bucket), a, b);
    }
}

} // verus!

use vstd::prelude::*;
use sha2::Digest;

verus! {

/// The SHA-256 digest of a byte sequence.
pub uninterp spec fn sha256(data: Seq<u8>) -> Seq<u8>;

/// The lowercase hexadecimal digit for a value below 16.
pub open spec fn hex_digit(nibble: int) -> char {
    if nibble < 10 {
        (48 + nibble) as char
    } else {
        (87 + nibble) as char
    }
}

/// Lowercase hexadecimal text of a byte sequence: two digits per byte, high
/// nibble first.
pub open spec fn hex_lower(data: Seq<u8>) -> Seq<char>
    decreases data.len(),
{
    if data.len() == 0 {
        Seq::empty()
    } else {
        seq![hex_digit(data[0] as int / 16), hex_digit(data[0] as int % 16)] + hex_lower(data.drop_first())
    }
}

/// The text is always twice as long as the data.
pub proof fn lemma_hex_lower_len(data: Seq<u8>)
    ensures
        hex_lower(data).len() == 2 * data.len(),
    decreases data.len(),
{
    if data.len() > 0 {
        lemma_hex_lower_len(data.drop_first());
    }
}

/// The lowercase hexadecimal digits, in order of value.
pub open spec fn hex_alphabet() -> Seq<char> {
    seq!['0', '1', '2', '3', '4', '5', '6', '7', '8', '9', 'a', 'b', 'c', 'd', 'e', 'f']
}

/// Each value below 16 is written with its lowercase hexadecimal digit.
pub proof fn lemma_hex_digit_alphabet(nibble: int)
    requires
        0 <= nibble < 16,
    ensures
        hex_digit(nibble) == hex_alphabet()[nibble],
{
    assert(hex_digit(0) == '0');
    assert(hex_digit(1) == '1');
    assert(hex_digit(2) == '2');
    assert(hex_digit(3) == '3');
    assert(hex_digit(4) == '4');
    assert(hex_digit(5) == '5');
    assert(hex_digit(6) == '6');
    assert(hex_digit(7) == '7');
    assert(hex_digit(8) == '8');
    assert(hex_digit(9) == '9');
    assert(hex_digit(10) == 'a');
    assert(hex_digit(11) == 'b');
    assert(hex_digit(12) == 'c');
    assert(hex_digit(13) == 'd');
    assert(hex_digit(14) == 'e');
    assert(hex_digit(15) == 'f');
}

/// Byte `i` of the data is written at positions `2i` and `2i + 1`: first the
/// digit of its high nibble, then that of its low nibble.
pub proof fn lemma_hex_lower_layout(data: Seq<u8>, i: int)
    requires
        0 <= i < data.len(),
    ensures
        hex_lower(data).len() == 2 * data.len(),
        hex_lower(data)[2 * i] == hex_alphabet()[data[i] as int / 16],
        hex_lower(data)[2 * i + 1] == hex_alphabet()[data[i] as int % 16],
    decreases data.len(),
{
    lemma_hex_lower_len(data);
    lemma_hex_digit_alphabet(data[i] as int / 16);
    lemma_hex_digit_alphabet(data[i] as int % 16);
    if i > 0 {
        lemma_hex_lower_layout(data.drop_first(), i - 1);
        let head = seq![hex_digit(data[0] as int / 16), hex_digit(data[0] as int % 16)];
        assert(hex_lower(data) == head + hex_lower(data.drop_first()));
        assert(data.drop_first()[i - 1] == data[i]);
    }
}

/// Calls `sha2::Sha256::digest` on `data`. Trusted: the result is the
/// SHA-256 digest of `data`, which has 32 bytes (the output size of `Sha256`).
#[verifier::external_body]
fn sha256_digest(data: &[u8]) -> (res: Vec<u8>)
    ensures
        res@ == sha256(data@),
        res@.len() == 32,
{
    sha2::Sha256::digest(data).to_vec()
}

/// Calls `hex::encode` on `data`. Trusted: the result writes each byte as two
/// lowercase hexadecimal digits, high nibble first, as the crate documents
/// and its `BytesToHexChars` iterator does.
#[verifier::external_body]
fn hex_encode(data: &[u8]) -> (res: String)
    ensures
        res@ == hex_lower(data@),
{
    hex::encode(data)
}

/// The entity tag written for a given digest: its lowercase hex form.
pub fn etag_of_digest(digest: &[u8]) -> (res: String)
    ensures
        res@ == hex_lower(digest@),
        res@.len() == 2 * digest@.len(),
{
    let res = hex_encode(digest);
    proof { lemma_hex_lower_len(digest@); }
    res
}

/// The entity tag of an object body: the lowercase hex form of its SHA-256
/// digest, 64 characters long.
pub fn etag_of(body: &[u8]) -> (res: String)
    ensures
        res@ == hex_lower(sha256(body@)),
        res@.len() == 64,
{
    let digest = sha256_digest(body);
    etag_of_digest(digest.as_slice())
}

} // verus!

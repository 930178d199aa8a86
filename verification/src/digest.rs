//! Content digests: the 128-bit hash over a byte buffer, hex-encoded in
//! lowercase to a fixed width of 32 characters.
//!
//! The same digest is used for every chunk of a large upload and for the
//! whole content of a small one.  The hash itself comes from an outside
//! implementation; the hex encoding and every property of the digest string
//! are verified here.

use vstd::prelude::*;
use vstd::array::array_as_slice;
use vstd::string::StringExecFns;
use crate::plan::ChunkDescriptor;

verus! {

broadcast use vstd::array::group_array_axioms;

/// The 16 raw bytes that the hash assigns to a byte sequence.  A function of
/// its argument alone: same bytes, same hash, on every machine.
pub uninterp spec fn md5_bytes_of(data: Seq<u8>) -> Seq<u8>;

/// Relies on md5::compute: the 128-bit digest of the buffer, a pure function
/// of the bytes alone.
#[verifier::external_body]
fn md5_digest(data: &[u8]) -> (r: [u8; 16])
    ensures
        r@ == md5_bytes_of(data@),
{
    md5::compute(data).0
}

/// The lowercase hex character for a value below 16.
pub open spec fn hex_char_of(n: int) -> char {
    if n == 0 {
        '0'
    } else if n == 1 {
        '1'
    } else if n == 2 {
        '2'
    } else if n == 3 {
        '3'
    } else if n == 4 {
        '4'
    } else if n == 5 {
        '5'
    } else if n == 6 {
        '6'
    } else if n == 7 {
        '7'
    } else if n == 8 {
        '8'
    } else if n == 9 {
        '9'
    } else if n == 10 {
        'a'
    } else if n == 11 {
        'b'
    } else if n == 12 {
        'c'
    } else if n == 13 {
        'd'
    } else if n == 14 {
        'e'
    } else {
        'f'
    }
}

/// A lowercase hex digit.
pub open spec fn is_hex_char(c: char) -> bool {
    ('0' <= c && c <= '9') || ('a' <= c && c <= 'f')
}

/// Lowercase hex encoding of a byte sequence: two digits per byte, high
/// nibble first.
pub open spec fn hex_lower_of(data: Seq<u8>) -> Seq<char>
    decreases data.len(),
{
    if data.len() == 0 {
        Seq::empty()
    } else {
        hex_lower_of(data.drop_last()) + seq![
            hex_char_of(data.last() as int / 16),
            hex_char_of(data.last() as int % 16),
        ]
    }
}

/// Hex encoding writes exactly two characters per byte, all of them
/// lowercase hex digits.
pub proof fn lemma_hex_lower_shape(data: Seq<u8>)
    ensures
        hex_lower_of(data).len() == 2 * data.len(),
        forall|i: int| 0 <= i < hex_lower_of(data).len() ==> is_hex_char(#[trigger] hex_lower_of(data)[i]),
    decreases data.len(),
{
    if data.len() > 0 {
        lemma_hex_lower_shape(data.drop_last());
    }
}

/// The single-character string for a hex digit value.
pub(crate) fn hex_digit_str(n: u8) -> (r: &'static str)
    requires
        n < 16,
    ensures
        r@ =~= seq![hex_char_of(n as int)],
{
    proof {
        reveal_strlit("0");
        reveal_strlit("1");
        reveal_strlit("2");
        reveal_strlit("3");
        reveal_strlit("4");
        reveal_strlit("5");
        reveal_strlit("6");
        reveal_strlit("7");
        reveal_strlit("8");
        reveal_strlit("9");
        reveal_strlit("a");
        reveal_strlit("b");
        reveal_strlit("c");
        reveal_strlit("d");
        reveal_strlit("e");
        reveal_strlit("f");
    }
    if n == 0 {
        "0"
    } else if n == 1 {
        "1"
    } else if n == 2 {
        "2"
    } else if n == 3 {
        "3"
    } else if n == 4 {
        "4"
    } else if n == 5 {
        "5"
    } else if n == 6 {
        "6"
    } else if n == 7 {
        "7"
    } else if n == 8 {
        "8"
    } else if n == 9 {
        "9"
    } else if n == 10 {
        "a"
    } else if n == 11 {
        "b"
    } else if n == 12 {
        "c"
    } else if n == 13 {
        "d"
    } else if n == 14 {
        "e"
    } else {
        "f"
    }
}

/// Encode a byte buffer as lowercase hex, two digits per byte.
pub fn to_hex_lower(data: &[u8]) -> (r: String)
    ensures
        r@ == hex_lower_of(data@),
{
    let mut r = String::new();
    let mut i: usize = 0;
    let n = data.len();
    while i < n
        invariant
            n == data@.len(),
            0 <= i <= n,
            r@ == hex_lower_of(data@.take(i as int)),
        decreases n - i,
    {
        let b = data[i];
        r.append(hex_digit_str(b / 16));
        r.append(hex_digit_str(b % 16));
        proof {
            let t = data@.take(i + 1);
            assert(t.drop_last() =~= data@.take(i as int));
            assert(t.last() == data@[i as int]);
            assert(r@ =~= hex_lower_of(data@.take(i + 1)));
        }
        i = i + 1;
    }
    proof {
        assert(data@.take(n as int) =~= data@);
    }
    r
}

/// The digest string declared for a byte sequence: the lowercase hex form of
/// its 128-bit hash.
pub open spec fn digest_of(data: Seq<u8>) -> Seq<char> {
    hex_lower_of(md5_bytes_of(data))
}

/// A well-formed digest string: exactly 32 lowercase hex digits.
pub open spec fn is_digest(s: Seq<char>) -> bool {
    s.len() == 32 && forall|i: int| 0 <= i < s.len() ==> is_hex_char(#[trigger] s[i])
}

/// Compute the content digest of a byte buffer.
pub fn digest(data: &[u8]) -> (r: String)
    ensures
        r@ == digest_of(data@),
        is_digest(r@),
{
    let h = md5_digest(data);
    let r = to_hex_lower(array_as_slice(&h));
    proof {
        lemma_hex_lower_shape(h@);
    }
    r
}

/// The byte range of `content` that a chunk descriptor covers.
pub open spec fn chunk_bytes(content: Seq<u8>, d: ChunkDescriptor) -> Seq<u8>
    recommends
        d.offset + d.length <= content.len(),
{
    content.subrange(d.offset as int, d.offset + d.length)
}

/// Law: hashing a chunk during planning and hashing the bytes read back for
/// transmission give the same digest whenever the two reads returned the same
/// bytes — the digest is a function of the chunk's content alone.
pub proof fn lemma_digest_round_trip(content: Seq<u8>, d: ChunkDescriptor, reread: Seq<u8>)
    requires
        d.offset + d.length <= content.len(),
        reread == chunk_bytes(content, d),
    ensures
        digest_of(reread) == digest_of(chunk_bytes(content, d)),
{
}

} // verus!

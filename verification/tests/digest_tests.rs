use pan_upload::digest;
use pan_upload::digest::to_hex_lower;
use pan_upload::decimal::{i64_to_dec, u64_to_dec};
use pan_upload::plan;

#[test]
fn digest_known_values() {
    assert_eq!(digest(b"abc"), "900150983cd24fb0d6963f7d28e17f72");
    assert_eq!(digest(b""), "d41d8cd98f00b204e9800998ecf8427e");
    assert_eq!(
        digest(b"The quick brown fox jumps over the lazy dog"),
        "9e107d9d372bb6826bd81d3542a419d6"
    );
}

#[test]
fn digest_is_32_lowercase_hex() {
    let d = digest(&[0u8; 1000]);
    assert_eq!(d.len(), 32);
    assert!(d.chars().all(|c| c.is_ascii_hexdigit() && !c.is_ascii_uppercase()));
}

#[test]
fn hex_encoding_known_values() {
    assert_eq!(to_hex_lower(&[]), "");
    assert_eq!(to_hex_lower(&[0xbe, 0xef]), "beef");
    assert_eq!(to_hex_lower(&[0x00, 0x01, 0xff]), "0001ff");
}

#[test]
fn digest_round_trip_over_planned_chunks() {
    // Arbitrary content, long enough for three chunks at a 4-byte chunk size.
    let content: Vec<u8> = (0u16..1000).map(|i| (i * 7 % 256) as u8).collect();
    let chunk_size = 300u64;
    let p = plan(content.len() as u64, chunk_size);
    // digests computed at planning time, from the planned ranges
    let planned: Vec<String> = p
        .iter()
        .map(|d| digest(&content[d.offset as usize..d.offset as usize + d.length as usize]))
        .collect();
    // digests recomputed at transmission time, reading the same ranges again
    for (i, d) in p.iter().enumerate() {
        let reread = &content[d.offset as usize..d.offset as usize + d.length as usize];
        assert_eq!(digest(reread), planned[i]);
    }
}

#[test]
fn decimal_formatting() {
    assert_eq!(u64_to_dec(0), "0");
    assert_eq!(u64_to_dec(7), "7");
    assert_eq!(u64_to_dec(1234567890), "1234567890");
    assert_eq!(u64_to_dec(u64::MAX), "18446744073709551615");
    assert_eq!(i64_to_dec(0), "0");
    assert_eq!(i64_to_dec(-6), "-6");
    assert_eq!(i64_to_dec(i64::MIN), "-9223372036854775808");
    assert_eq!(i64_to_dec(i64::MAX), "9223372036854775807");
}

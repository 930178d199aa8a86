use pan_upload::plan;
use pan_upload::ChunkDescriptor;

const MIB: u64 = 1024 * 1024;

fn check_shape(file_size: u64, chunk_size: u64) {
    let p = plan(file_size, chunk_size);
    let total: u64 = p.iter().map(|d| d.length as u64).sum();
    assert_eq!(total, file_size, "lengths must sum to the file size");
    for (i, d) in p.iter().enumerate() {
        assert_eq!(d.index as usize, i, "indices must be consecutive from zero");
        assert!(d.length as u64 <= chunk_size, "no chunk may exceed the chunk size");
        assert_eq!(d.offset, i as u64 * chunk_size);
        if file_size > 0 {
            assert!(d.length > 0, "a non-empty file has no empty chunk");
        }
    }
}

#[test]
fn plan_covers_file_for_many_sizes() {
    for &file_size in &[0u64, 1, 2, 3, 5, 7, 100, 4095, 4096, 4097, 10_000_000] {
        for &chunk_size in &[1u64, 2, 3, 7, 4096, 4 * MIB] {
            check_shape(file_size, chunk_size);
        }
    }
}

#[test]
fn plan_exact_multiple_keeps_full_last_chunk() {
    let p = plan(8 * MIB, 4 * MIB);
    assert_eq!(p.len(), 2);
    assert_eq!(p[1].length as u64, 4 * MIB, "an exact multiple ends in a full chunk, not an empty one");

    let p = plan(12, 4);
    assert_eq!(p.len(), 3);
    assert_eq!(p[2].length, 4);
}

#[test]
fn plan_empty_file_is_one_zero_length_chunk() {
    let p = plan(0, 4 * MIB);
    assert_eq!(p.len(), 1);
    assert_eq!(p[0], ChunkDescriptor { index: 0, offset: 0, length: 0 });
    // the behavior is consistent across calls and chunk sizes
    let q = plan(0, 1);
    assert_eq!(q.len(), 1);
    assert_eq!(q[0], ChunkDescriptor { index: 0, offset: 0, length: 0 });
}

#[test]
fn plan_small_file_is_one_chunk() {
    let p = plan(1024, 4 * MIB);
    assert_eq!(p.len(), 1);
    assert_eq!(p[0].offset, 0);
    assert_eq!(p[0].length, 1024);
}

#[test]
fn plan_nine_megabytes_at_four() {
    let p = plan(9 * MIB, 4 * MIB);
    assert_eq!(p.len(), 3);
    let lengths: Vec<u64> = p.iter().map(|d| d.length as u64).collect();
    let offsets: Vec<u64> = p.iter().map(|d| d.offset).collect();
    assert_eq!(lengths, vec![4 * MIB, 4 * MIB, 1 * MIB]);
    assert_eq!(offsets, vec![0, 4 * MIB, 8 * MIB]);
}

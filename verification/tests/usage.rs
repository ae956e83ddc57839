use cloud_calc::usage::{measure_start, memory_bytes};

#[test]
fn memory_bytes_counts_pages_of_4096() {
    assert_eq!(memory_bytes(Some(3)), 12288);
    assert_eq!(memory_bytes(Some(0)), 0);
    assert_eq!(memory_bytes(None), 0);
}

#[test]
fn memory_bytes_past_i64_wraps_like_the_cast() {
    let pages = u64::MAX / 4096;
    assert_eq!(memory_bytes(Some(pages)), (pages * 4096) as i64);
}

#[test]
fn measure_start_marks_a_moment() {
    let a = measure_start();
    let b = measure_start();
    assert!(b >= a);
}

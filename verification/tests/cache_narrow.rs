use stdsimd::cache::{Initializer, CACHE_CAPACITY};
use stdsimd::cache_narrow::Cache;

fn stub(bits: &[u32]) -> Initializer {
    let mut i = Initializer::default();
    for &b in bits {
        i.set(b);
    }
    i
}

#[test]
fn narrow_boundary_round_trip() {
    let mut c = Cache::uninitialized();
    assert!(stdsimd::cache_narrow::test(&mut c, 0, || stub(&[0, 31, 32, 62])));
    assert!(stdsimd::cache_narrow::test(&mut c, 31, || stub(&[0, 31, 32, 62])));
    assert!(stdsimd::cache_narrow::test(&mut c, 32, || stub(&[0, 31, 32, 62])));
    assert!(stdsimd::cache_narrow::test(&mut c, 62, || stub(&[0, 31, 32, 62])));
    for j in 0..CACHE_CAPACITY {
        if j != 0 && j != 31 && j != 32 && j != 62 {
            assert!(!stdsimd::cache_narrow::test(&mut c, j, || stub(&[0, 31, 32, 62])));
        }
    }
}

#[test]
fn narrow_monotonic_initialization() {
    let mut c = Cache::uninitialized();
    assert!(c.is_uninitialized());
    stdsimd::cache_narrow::test(&mut c, 7, || stub(&[7]));
    assert!(!c.is_uninitialized());
    stdsimd::cache_narrow::test(&mut c, 9, || stub(&[7]));
    assert!(!c.is_uninitialized());
}

#[test]
fn narrow_idempotent_queries_detect_once() {
    let mut c = Cache::uninitialized();
    let mut detections = 0;
    let first = stdsimd::cache_narrow::test(&mut c, 40, || {
        detections += 1;
        stub(&[40])
    });
    let second = stdsimd::cache_narrow::test(&mut c, 40, || {
        detections += 1;
        stub(&[40])
    });
    assert!(first);
    assert_eq!(first, second);
    assert_eq!(detections, 1);
}

#[test]
fn narrow_high_half_isolation() {
    let mut c = Cache::uninitialized();
    assert!(stdsimd::cache_narrow::test(&mut c, 40, || stub(&[40])));
    assert!(!stdsimd::cache_narrow::test(&mut c, 8, || stub(&[40])));
    assert!(!stdsimd::cache_narrow::test(&mut c, 41, || stub(&[40])));
}

#[test]
fn narrow_sentinel_safety_all_real_bits_set() {
    let all: Vec<u32> = (0..CACHE_CAPACITY).collect();
    let mut c = Cache::uninitialized();
    for b in 0..CACHE_CAPACITY {
        assert!(stdsimd::cache_narrow::test(&mut c, b, || stub(&all)));
    }
    assert!(!c.is_uninitialized());
}

#[test]
fn narrow_initialize_stores_the_value() {
    let mut c = Cache::uninitialized();
    c.initialize(stub(&[2, 33]));
    assert!(!c.is_uninitialized());
    assert!(c.test(2));
    assert!(c.test(33));
    assert!(!c.test(3));
    assert!(!c.test(34));
    assert!(!c.test(63));
}

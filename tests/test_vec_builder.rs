use mmap_vec::{DefaultSegmentBuilder, MmapVecBuilder, MmapVecError};

#[test]
fn test_capacity() {
    let v = MmapVecBuilder::<u8>::new().try_build().unwrap();
    assert_eq!(v.capacity(), 4096);

    let v = MmapVecBuilder::<u64>::new().try_build().unwrap();
    assert_eq!(v.capacity(), 512);

    let v = MmapVecBuilder::<i64>::new().try_build().unwrap();
    assert_eq!(v.capacity(), 512);

    let v = MmapVecBuilder::<i64>::new()
        .capacity(128)
        .try_build()
        .unwrap();
    assert_eq!(v.capacity(), 128);
}

#[test]
fn test_builder_custom_policy_path() {
    let v = MmapVecBuilder::<u32>::new()
        .capacity(10)
        .segment_builder(DefaultSegmentBuilder::with_path("/tmp/custom-store"))
        .try_build()
        .unwrap();
    let path = v.path();
    assert!(path.starts_with("/tmp/custom-store/"));
    assert!(path.ends_with(".seg"));
    assert_eq!(path.len(), "/tmp/custom-store/".len() + 36 + ".seg".len());
}

#[test]
fn test_builder_capacity_overflow() {
    let r = MmapVecBuilder::<u64>::new().capacity(usize::MAX).try_build();
    assert_eq!(r.err(), Some(MmapVecError::CapacityOverflow));
}

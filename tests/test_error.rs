use std::io;

use mmap_vec::MmapVecError;

#[test]
fn test_display() {
    assert_eq!(
        MmapVecError::MissingSegmentPath.to_string(),
        "missing segment path"
    );
    assert_eq!(MmapVecError::Io("foo".to_string()).to_string(), "I/O: foo");
}

#[test]
fn test_convert() {
    let custom_io_error: MmapVecError = io::Error::new(io::ErrorKind::Other, "oh no!").into();
    assert_eq!(custom_io_error, MmapVecError::Io("oh no!".to_string()));
}

#[test]
fn test_display_capacity_overflow() {
    assert_eq!(MmapVecError::CapacityOverflow.to_string(), "capacity overflow");
}

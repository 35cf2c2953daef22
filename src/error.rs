use vstd::prelude::*;
use vstd::string::{to_string_from_display_ensures, StringExecFns};

verus! {

/// std's `io::Error`, which `MmapVecError::from` takes; opaque here.
#[verifier::external_type_specification]
#[verifier::external_body]
pub struct ExIoError(std::io::Error);

/// Errors that opening or growing a segment can report.
#[derive(Debug, PartialEq, Eq)]
pub enum MmapVecError {
    /// In-place growth was asked of a segment that has no backing path.
    MissingSegmentPath,
    /// An I/O failure, with its message.
    Io(String),
    /// The requested capacity, counted in bytes, does not fit in a `usize`.
    CapacityOverflow,
    /// The element type takes no memory, so there is nothing to store.
    ZeroSizedType,
}

/// The text that `MmapVecError::to_string` produces for `e`.
pub open spec fn error_message(e: MmapVecError) -> Seq<char> {
    match e {
        MmapVecError::MissingSegmentPath => "missing segment path"@,
        MmapVecError::Io(msg) => "I/O: "@ + msg@,
        MmapVecError::CapacityOverflow => "capacity overflow"@,
        MmapVecError::ZeroSizedType => "zero-sized type"@,
    }
}

impl MmapVecError {
    /// Human-readable description of the error.
    pub fn to_string(&self) -> (r: String)
        ensures
            r@ == error_message(*self),
    {
        match self {
            MmapVecError::MissingSegmentPath => String::from_str("missing segment path"),
            MmapVecError::Io(msg) => String::from_str("I/O: ").concat(msg.as_str()),
            MmapVecError::CapacityOverflow => String::from_str("capacity overflow"),
            MmapVecError::ZeroSizedType => String::from_str("zero-sized type"),
        }
    }
}

impl From<std::io::Error> for MmapVecError {
    /// Keeps the I/O error's message, as its `Display` renders it.
    fn from(value: std::io::Error) -> (r: Self)
        ensures
            r matches MmapVecError::Io(msg) && to_string_from_display_ensures::<std::io::Error>(
                &value,
                msg,
            ),
    {
        let msg = value.to_string();
        MmapVecError::Io(msg)
    }
}

impl vstd::std_specs::convert::FromSpecImpl<std::io::Error> for MmapVecError {
    open spec fn obeys_from_spec() -> bool {
        false
    }

    open spec fn from_spec(v: std::io::Error) -> Self {
        arbitrary()
    }
}

} // verus!

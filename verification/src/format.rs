//! Formats turn structured data into bytes for persisting, and back.

use vstd::prelude::*;

verus! {

/// A storage format for values of type `T`.
///
/// An implementing type is only a marker: it is named as a type argument and
/// never instantiated.
///
/// The spec functions come with defaults under which the contracts of
/// `to_bytes` and `from_bytes` hold of any implementation, so that a format
/// written in plain Rust only supplies the error types and those two. A
/// format that wants more proved of the databases that use it overrides them.
pub trait Format<T>: Sized {
    /// The failure of an encoding.
    type SerError;

    /// The failure of a decoding.
    type DeError;

    /// Whether `to_bytes` may render `value` as `bytes`.
    open spec fn encodes(value: &T, bytes: Seq<u8>) -> bool {
        true
    }

    /// Whether `from_bytes` may read `bytes` as `value`.
    open spec fn decodes(bytes: Seq<u8>, value: &T) -> bool {
        true
    }

    /// Whether `to_bytes` is sure to succeed on `value`.
    open spec fn can_encode(value: &T) -> bool {
        false
    }

    /// Whether `from_bytes` is sure to succeed on `bytes`.
    open spec fn can_decode(bytes: Seq<u8>) -> bool {
        false
    }

    /// Converts data to bytes: all of them, or a failure.
    fn to_bytes(value: &T) -> (r: Result<Vec<u8>, Self::SerError>)
        ensures
            Self::can_encode(value) ==> r is Ok,
            r matches Ok(bytes) ==> Self::encodes(value, bytes@),
    ;

    /// Converts bytes to data: a whole value, or a failure.
    fn from_bytes(data: Vec<u8>) -> (r: Result<T, Self::DeError>)
        ensures
            Self::can_decode(data@) ==> r is Ok,
            r matches Ok(value) ==> Self::decodes(data@, &value),
    ;
}

/// Whether `F` loses nothing of a `T`: whatever it reads from a rendering of a
/// value is that value.
pub open spec fn lossless<T, F: Format<T>>() -> bool {
    forall|value: T, bytes: Seq<u8>, back: T|
        #[trigger] F::encodes(&value, bytes) && #[trigger] F::decodes(bytes, &back) ==> back
            == value
}

} // verus!

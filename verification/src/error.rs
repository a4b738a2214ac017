//! The failures of a database operation.

use vstd::prelude::*;

verus! {

/// The ways in which a database operation can fail. Each variant keeps the
/// failure that caused it: `S` and `D` are the format's encoding and decoding
/// failures, `B` is the backend's.
#[derive(Debug)]
pub enum KoitError<S, D, B> {
    /// The data could not be encoded by the format.
    ToFormat(S),
    /// The stored bytes could not be decoded by the format.
    FromFormat(D),
    /// The backend could not hand out its bytes.
    BackendRead(B),
    /// The backend could not take the bytes. What it holds may now be
    /// corrupted.
    BackendWrite(B),
    /// The backend could not be opened or created.
    BackendCreation(B),
}

impl<S, D, B> KoitError<S, D, B> {
    /// A short description of the failure, without its cause.
    pub fn message(&self) -> (text: &'static str)
        ensures
            text@ == match *self {
                KoitError::ToFormat(_) => "the database failed to serialize"@,
                KoitError::FromFormat(_) => "the database failed to deserialize"@,
                KoitError::BackendRead(_) => "failed to read from the backend"@,
                KoitError::BackendWrite(_) => "failed to write to the backend"@,
                KoitError::BackendCreation(_) => "failed to create backend"@,
            },
    {
        match self {
            KoitError::ToFormat(_) => "the database failed to serialize",
            KoitError::FromFormat(_) => "the database failed to deserialize",
            KoitError::BackendRead(_) => "failed to read from the backend",
            KoitError::BackendWrite(_) => "failed to write to the backend",
            KoitError::BackendCreation(_) => "failed to create backend",
        }
    }

    /// The outcome of an encoding, as the outcome of the operation that asked
    /// for it.
    pub fn encoding<T>(outcome: Result<T, S>) -> (r: Result<T, Self>)
        ensures
            r == match outcome {
                Ok(done) => Ok::<T, Self>(done),
                Err(cause) => Err(KoitError::ToFormat(cause)),
            },
    {
        match outcome {
            Ok(done) => Ok(done),
            Err(cause) => Err(KoitError::ToFormat(cause)),
        }
    }

    /// The outcome of a decoding, as the outcome of the operation that asked
    /// for it.
    pub fn decoding<T>(outcome: Result<T, D>) -> (r: Result<T, Self>)
        ensures
            r == match outcome {
                Ok(done) => Ok::<T, Self>(done),
                Err(cause) => Err(KoitError::FromFormat(cause)),
            },
    {
        match outcome {
            Ok(done) => Ok(done),
            Err(cause) => Err(KoitError::FromFormat(cause)),
        }
    }

    /// The outcome of a backend's read, as the outcome of the operation that
    /// asked for it.
    pub fn reading<T>(outcome: Result<T, B>) -> (r: Result<T, Self>)
        ensures
            r == match outcome {
                Ok(done) => Ok::<T, Self>(done),
                Err(cause) => Err(KoitError::BackendRead(cause)),
            },
    {
        match outcome {
            Ok(done) => Ok(done),
            Err(cause) => Err(KoitError::BackendRead(cause)),
        }
    }

    /// The outcome of a backend's write, as the outcome of the operation that
    /// asked for it.
    pub fn writing<T>(outcome: Result<T, B>) -> (r: Result<T, Self>)
        ensures
            r == match outcome {
                Ok(done) => Ok::<T, Self>(done),
                Err(cause) => Err(KoitError::BackendWrite(cause)),
            },
    {
        match outcome {
            Ok(done) => Ok(done),
            Err(cause) => Err(KoitError::BackendWrite(cause)),
        }
    }

    /// The outcome of opening or creating a backend, as the outcome of the
    /// operation that asked for it.
    pub fn creating<T>(outcome: Result<T, B>) -> (r: Result<T, Self>)
        ensures
            r == match outcome {
                Ok(done) => Ok::<T, Self>(done),
                Err(cause) => Err(KoitError::BackendCreation(cause)),
            },
    {
        match outcome {
            Ok(done) => Ok(done),
            Err(cause) => Err(KoitError::BackendCreation(cause)),
        }
    }
}

} // verus!

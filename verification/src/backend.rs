//! Backends persist the database as raw bytes. Turning bytes into data, and
//! back, is the business of a [`Format`](crate::format::Format).

use vstd::prelude::*;
use vstd::std_specs::convert::FromSpecImpl;

verus! {

/// A provider of byte storage: it holds one byte sequence, read and
/// overwritten as a whole.
///
/// The three spec functions come with defaults under which the contracts of
/// `read` and `write` hold of any implementation, so that a backend written
/// in plain Rust only supplies `Error`, `read` and `write`. A backend that
/// wants more proved of the databases built on it overrides them, as
/// [`Memory`] does.
pub trait Backend: Sized {
    /// The failure a read or a write may report.
    type Error;

    /// Whether `contents` says what a store of this kind holds. Where it
    /// does not, `read` and `write` promise nothing about the bytes.
    open spec fn obeys_store_spec() -> bool {
        false
    }

    /// Whether a store of this kind cannot fail. Where this is not said,
    /// `read` and `write` may fail at any time.
    open spec fn never_fails() -> bool {
        false
    }

    /// The byte sequence that the store holds. It means something only
    /// where `obeys_store_spec` holds.
    open spec fn contents(&self) -> Seq<u8> {
        Seq::empty()
    }

    /// Reads everything the store holds. Reading does not alter what is
    /// stored, whether it succeeds or not.
    fn read(&mut self) -> (r: Result<Vec<u8>, Self::Error>)
        ensures
            Self::never_fails() ==> r is Ok,
            Self::obeys_store_spec() ==> final(self).contents() == old(self).contents(),
            Self::obeys_store_spec() ==> (r matches Ok(bytes) ==> bytes@ == old(self).contents()),
    ;

    /// Overwrites the store with `data`. After a success the store holds
    /// exactly `data`; after a failure it may hold anything.
    fn write(&mut self, data: Vec<u8>) -> (r: Result<(), Self::Error>)
        ensures
            Self::never_fails() ==> r is Ok,
            Self::obeys_store_spec() ==> (r is Ok ==> final(self).contents() == data@),
    ;
}

/// An in-memory backend: a byte buffer that cannot fail.
#[derive(Debug, Clone, PartialEq, Eq)]
pub struct Memory(Vec<u8>);

impl View for Memory {
    type V = Seq<u8>;

    /// The bytes in the buffer.
    closed spec fn view(&self) -> Seq<u8> {
        self.0@
    }
}

impl Memory {
    /// An empty buffer.
    pub fn new() -> (memory: Self)
        ensures
            memory@ == Seq::<u8>::empty(),
    {
        Memory(Vec::new())
    }

    /// Takes the bytes out of the backend, leaving an empty backend in its
    /// place.
    pub fn take(&mut self) -> (bytes: Vec<u8>)
        ensures
            bytes@ == old(self)@,
            final(self)@ == Seq::<u8>::empty(),
    {
        let mut bytes: Vec<u8> = Vec::new();
        std::mem::swap(&mut self.0, &mut bytes);
        bytes
    }
}

impl Default for Memory {
    fn default() -> (memory: Self)
        ensures
            memory@ == Seq::<u8>::empty(),
    {
        Memory::new()
    }
}

impl From<Vec<u8>> for Memory {
    /// A backend that holds the bytes of `buf`.
    fn from(buf: Vec<u8>) -> (memory: Self)
        ensures
            memory@ == buf@,
    {
        Memory(buf)
    }
}

impl FromSpecImpl<Vec<u8>> for Memory {
    open spec fn obeys_from_spec() -> bool {
        true
    }

    closed spec fn from_spec(buf: Vec<u8>) -> Self {
        Memory(buf)
    }
}

impl Backend for Memory {
    type Error = std::convert::Infallible;

    open spec fn obeys_store_spec() -> bool {
        true
    }

    open spec fn never_fails() -> bool {
        true
    }

    open spec fn contents(&self) -> Seq<u8> {
        self@
    }

    fn read(&mut self) -> (r: Result<Vec<u8>, Self::Error>)
        ensures
            final(self)@ == old(self)@,
            r matches Ok(bytes) && bytes@ == old(self)@,
    {
        Ok(self.0.clone())
    }

    fn write(&mut self, data: Vec<u8>) -> (r: Result<(), Self::Error>)
        ensures
            r is Ok,
            final(self)@ == data@,
    {
        self.0 = data;
        Ok(())
    }
}

/// What is left to do after a first attempt to open a store that may not
/// exist yet. `S` is the opened store, `E` the failure of an attempt.
#[derive(Debug)]
pub enum Opening<S, E> {
    /// Nothing: the attempt settled it. A store that was found comes with
    /// `true`, for having existed before.
    Done(Result<(S, bool), E>),
    /// The store was not there: it has to be created.
    Create,
}

impl<S, E> Opening<S, E> {
    /// Decides what follows the attempt to open an existing store. `missing`
    /// says whether a failed attempt failed because there was no such store:
    /// only then is one created, and any other failure stands.
    pub fn after_attempt(attempt: Result<S, E>, missing: bool) -> (next: Self)
        ensures
            next == match attempt {
                Ok(store) => Opening::<S, E>::Done(Ok((store, true))),
                Err(cause) => if missing {
                    Opening::Create
                } else {
                    Opening::Done(Err(cause))
                },
            },
    {
        match attempt {
            Ok(store) => Opening::Done(Ok((store, true))),
            Err(cause) => if missing {
                Opening::Create
            } else {
                Opening::Done(Err(cause))
            },
        }
    }

    /// The outcome of creating the store that was missing: the new store
    /// comes with `false`, for not having existed before.
    pub fn after_creation(creation: Result<S, E>) -> (r: Result<(S, bool), E>)
        ensures
            r == match creation {
                Ok(store) => Ok::<(S, bool), E>((store, false)),
                Err(cause) => Err(cause),
            },
    {
        match creation {
            Ok(store) => Ok((store, false)),
            Err(cause) => Err(cause),
        }
    }
}

} // verus!

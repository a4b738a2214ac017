//! A small structured, embedded database: one typed value held in memory,
//! persisted as a whole to a byte store through a pluggable format.
//!
//! The [`Database`] owns the value and the store. Shared access reads the
//! value, exclusive access changes it, and the store is reached only to
//! save the value or to load it.

use vstd::prelude::*;

pub mod backend;
mod error;
pub mod format;

pub use backend::Backend;
pub use error::KoitError;
pub use format::Format;

verus! {

/// The database: one value of type `D`, a backend `B` that persists bytes,
/// and a format `F` that turns the one into the other.
#[derive(Debug)]
pub struct Database<D, B, F> {
    data: D,
    backend: B,
    _format: std::marker::PhantomData<F>,
}

impl<D, B: Backend, F: Format<D>> Database<D, B, F> {
    /// The value that the database holds in memory.
    pub closed spec fn value(&self) -> D {
        self.data
    }

    /// The backend that the database persists to.
    pub closed spec fn store(&self) -> B {
        self.backend
    }

    /// Whether the format has a rendering of `value`.
    pub open spec fn has_rendering(value: D) -> bool {
        exists|bytes: Seq<u8>| #[trigger] F::encodes(&value, bytes)
    }

    /// Whether `store` holds a rendering of `value` in the format, as far as
    /// the store says what it holds.
    pub open spec fn holds_rendering(store: B, value: D) -> bool {
        exists|bytes: Seq<u8>|
            #[trigger] F::encodes(&value, bytes) && (B::obeys_store_spec() ==> store.contents()
                == bytes)
    }

    /// Whether `value` is what the format reads from the bytes in `store`, as
    /// far as the store says what it holds.
    pub open spec fn is_reading(store: B, value: D) -> bool {
        exists|bytes: Seq<u8>|
            #[trigger] F::decodes(bytes, &value) && (B::obeys_store_spec() ==> store.contents()
                == bytes)
    }

    /// Whether the format is sure to succeed on the bytes in `store`: it is
    /// of no store that does not say what it holds.
    pub open spec fn surely_decodes(store: B) -> bool {
        B::obeys_store_spec() && F::can_decode(store.contents())
    }

    /// Whether `value` is what a database starts with over `store`: what the
    /// format reads from the store where it `existed` before, and else what
    /// `factory` makes.
    pub open spec fn starts_with<T: FnOnce() -> D>(
        store: B,
        existed: bool,
        factory: T,
        value: D,
    ) -> bool {
        if existed {
            Self::is_reading(store, value)
        } else {
            factory.ensures((), value)
        }
    }

    /// Reads and decodes what `backend` holds.
    fn load_from_backend(backend: &mut B) -> (r: Result<
        D,
        KoitError<F::SerError, F::DeError, B::Error>,
    >)
        ensures
            B::obeys_store_spec() ==> final(backend).contents() == old(backend).contents(),
            match r {
                Ok(value) => Self::is_reading(*old(backend), value),
                Err(KoitError::BackendRead(_)) => !B::never_fails(),
                Err(KoitError::FromFormat(_)) => !Self::surely_decodes(*old(backend)),
                Err(_) => false,
            },
    {
        let bytes = KoitError::reading(backend.read())?;
        let value = KoitError::decoding(F::from_bytes(bytes))?;
        Ok(value)
    }

    /// Constructs the database over a store that was opened at some path,
    /// and loads the value from it. `opened` is what opening the store came
    /// to: a failure there is handed on as `BackendCreation`, and no database
    /// is made unless the store could be opened, read and decoded.
    pub fn load_from_path(opened: Result<B, B::Error>) -> (r: Result<
        Self,
        KoitError<F::SerError, F::DeError, B::Error>,
    >)
        ensures
            match opened {
                Err(cause) => r matches Err(KoitError::BackendCreation(kept)) && kept == cause,
                Ok(store) => match r {
                    Ok(db) => Self::is_reading(store, db.value()) && (B::obeys_store_spec()
                        ==> db.store().contents() == store.contents()),
                    Err(KoitError::BackendRead(_)) => !B::never_fails(),
                    Err(KoitError::FromFormat(_)) => !Self::surely_decodes(store),
                    Err(_) => false,
                },
            },
    {
        let mut backend = KoitError::creating(opened)?;
        let data = Self::load_from_backend(&mut backend)?;
        Ok(Database { data, backend, _format: std::marker::PhantomData })
    }

    /// Constructs the database over a store that was opened at some path, or
    /// created there if there was none. `opened` is what that came to: the
    /// store, with whether it existed before, or a failure, which is handed
    /// on as `BackendCreation`. From a store that existed the value is loaded;
    /// for a new one `factory` makes it. Either way the value is saved to the
    /// store at once, so that a new store is never left without one.
    pub fn load_from_path_or_else<T>(opened: Result<(B, bool), B::Error>, factory: T) -> (r: Result<
        Self,
        KoitError<F::SerError, F::DeError, B::Error>,
    >) where T: FnOnce() -> D
        requires
            opened matches Ok((_, false)) ==> factory.requires(()),
        ensures
            match opened {
                Err(cause) => r matches Err(KoitError::BackendCreation(kept)) && kept == cause,
                Ok((store, existed)) => match r {
                    Ok(db) => Self::holds_rendering(db.store(), db.value()) && Self::starts_with(
                        store,
                        existed,
                        factory,
                        db.value(),
                    ),
                    Err(KoitError::BackendRead(_)) => existed && !B::never_fails(),
                    Err(KoitError::FromFormat(_)) => existed && !Self::surely_decodes(store),
                    Err(KoitError::ToFormat(_)) => exists|value: D| #[trigger]
                        Self::starts_with(store, existed, factory, value) && !F::can_encode(
                            &value,
                        ),
                    Err(KoitError::BackendWrite(_)) => !B::never_fails() && exists|value: D| #[trigger]
                        Self::starts_with(store, existed, factory, value) && Self::has_rendering(
                            value,
                        ),
                    Err(KoitError::BackendCreation(_)) => false,
                },
            },
    {
        let (mut backend, exists) = KoitError::creating(opened)?;
        let ghost store = backend;
        let data = if exists {
            Self::load_from_backend(&mut backend)?
        } else {
            factory()
        };
        let mut db = Database { data, backend, _format: std::marker::PhantomData };
        assert(Self::starts_with(store, exists, factory, db.value()));
        db.save()?;
        Ok(db)
    }

    /// Same as `load_from_path_or_else`, with the default value of `D` in
    /// place of a factory.
    pub fn load_from_path_or_default(opened: Result<(B, bool), B::Error>) -> (r: Result<
        Self,
        KoitError<F::SerError, F::DeError, B::Error>,
    >) where D: Default
        ensures
            match opened {
                Err(cause) => r matches Err(KoitError::BackendCreation(kept)) && kept == cause,
                Ok((store, existed)) => match r {
                    Ok(db) => Self::holds_rendering(db.store(), db.value()) && Self::starts_with(
                        store,
                        existed,
                        D::default,
                        db.value(),
                    ),
                    Err(KoitError::BackendRead(_)) => existed && !B::never_fails(),
                    Err(KoitError::FromFormat(_)) => existed && !Self::surely_decodes(store),
                    Err(KoitError::ToFormat(_)) => exists|value: D| #[trigger]
                        Self::starts_with(store, existed, D::default, value) && !F::can_encode(
                            &value,
                        ),
                    Err(KoitError::BackendWrite(_)) => !B::never_fails() && exists|value: D| #[trigger]
                        Self::starts_with(store, existed, D::default, value) && Self::has_rendering(
                            value,
                        ),
                    Err(KoitError::BackendCreation(_)) => false,
                },
            },
    {
        Self::load_from_path_or_else(opened, D::default)
    }

    /// Flushes the value to the backend: encodes it, then overwrites the
    /// store with the bytes. The value in memory stays as it is, whatever
    /// happens. Where the encoding fails the store is not touched; where the
    /// write fails the store may be corrupted.
    pub fn save(&mut self) -> (r: Result<(), KoitError<F::SerError, F::DeError, B::Error>>)
        ensures
            final(self).value() == old(self).value(),
            match r {
                Ok(()) => Self::holds_rendering(final(self).store(), old(self).value()),
                Err(KoitError::ToFormat(_)) => final(self).store() == old(self).store()
                    && !F::can_encode(&old(self).value()),
                Err(KoitError::BackendWrite(_)) => !B::never_fails() && Self::has_rendering(
                    old(self).value(),
                ),
                Err(_) => false,
            },
    {
        let bytes = KoitError::encoding(F::to_bytes(&self.data))?;
        KoitError::writing(self.backend.write(bytes))?;
        Ok(())
    }

    /// Replaces the value by what the backend holds, and returns the value
    /// it had. Where the bytes cannot be read or decoded, the value stays as
    /// it is.
    pub fn reload(&mut self) -> (r: Result<D, KoitError<F::SerError, F::DeError, B::Error>>)
        ensures
            B::obeys_store_spec() ==> final(self).store().contents() == old(
                self,
            ).store().contents(),
            match r {
                Ok(previous) => previous == old(self).value() && Self::is_reading(
                    old(self).store(),
                    final(self).value(),
                ),
                Err(KoitError::BackendRead(_)) => final(self).value() == old(self).value()
                    && !B::never_fails(),
                Err(KoitError::FromFormat(_)) => final(self).value() == old(self).value()
                    && !Self::surely_decodes(old(self).store()),
                Err(_) => false,
            },
    {
        let new_data = Self::load_from_backend(&mut self.backend)?;
        Ok(self.replace(new_data))
    }

    /// Puts `data` in the place of the value, and returns the value that was
    /// there.
    pub fn replace(&mut self, data: D) -> (previous: D)
        ensures
            previous == old(self).value(),
            final(self).value() == data,
            final(self).store() == old(self).store(),
    {
        let mut other = data;
        std::mem::swap(&mut self.data, &mut other);
        other
    }

    /// Reads the value: runs `task` on it and returns what `task` returns.
    /// The database is left as it is.
    pub fn read<T, R>(&self, task: T) -> (r: R) where T: FnOnce(&D) -> R
        requires
            task.requires((&self.value(),)),
        ensures
            task.ensures((&self.value(),), r),
    {
        task(&self.data)
    }

    /// Writes to the value: runs `task` with exclusive access to it and
    /// returns what `task` returns. The value is then as `task` left it; the
    /// backend is not touched.
    pub fn write<T, R>(&mut self, task: T) -> (r: R) where T: FnOnce(&mut D) -> R
        requires
            forall|data: &mut D| *data == old(self).value() ==> task.requires((data,)),
        ensures
            exists|data: &mut D|
                *data == old(self).value() && *final(data) == final(self).value()
                    && #[trigger] task.ensures((data,), r),
            final(self).store() == old(self).store(),
    {
        task(&mut self.data)
    }

    /// Hands out the value for changing in place.
    pub fn get_data_mut(&mut self) -> (data: &mut D)
        ensures
            *data == old(self).value(),
            final(self).value() == *final(data),
            final(self).store() == old(self).store(),
    {
        &mut self.data
    }

    /// A read that follows a write sees what the write left: the task of
    /// the read runs on the very value that the task of the write ended with.
    pub proof fn lemma_read_sees_write<W, R, T, S>(
        before: Self,
        change: W,
        changed: R,
        after: Self,
        task: T,
        seen: S,
    ) where W: FnOnce(&mut D) -> R, T: FnOnce(&D) -> S
        requires
            exists|data: &mut D|
                *data == before.value() && *final(data) == after.value()
                    && #[trigger] change.ensures((data,), changed),
            task.ensures((&after.value(),), seen),
        ensures
            exists|data: &mut D|
                *data == before.value() && #[trigger] change.ensures((data,), changed)
                    && task.ensures((&*final(data),), seen),
    {
    }

    /// Saving and loading lose nothing, with a format that loses nothing and
    /// a store that says what it holds: a database `loaded` from the store
    /// that `saved` was saved to holds the value that `saved` held.
    pub proof fn lemma_saved_value_loads_back(saved: Self, loaded: Self)
        requires
            B::obeys_store_spec(),
            format::lossless::<D, F>(),
            Self::holds_rendering(saved.store(), saved.value()),
            Self::is_reading(saved.store(), loaded.value()),
        ensures
            loaded.value() == saved.value(),
    {
    }

    /// Creates a database from its constituents.
    pub fn from_parts(data: D, backend: B) -> (db: Self)
        ensures
            db.value() == data,
            db.store() == backend,
    {
        Database { data, backend, _format: std::marker::PhantomData }
    }

    /// Consumes the database and returns its data and backend.
    pub fn into_parts(self) -> (parts: (D, B))
        ensures
            parts == (self.value(), self.store()),
    {
        (self.data, self.backend)
    }
}

} // verus!

//! The Python faces of typed type handles.
//!
//! A generated `Py<TypeName>` wrapper holds a `TypedHandle<TypeName>` and
//! behaves like one. `PyMapTarget` lets a type name its wrapper, so that a
//! `TypedHandle<T>` returned by a mirrored method reaches Python as `T`'s
//! wrapper and comes back as the same handle.

use vstd::prelude::*;

use core::marker::PhantomData;

verus! {

/// A handle to a uniqued type of the Rust type `T`: the type's untyped
/// handle, tagged with `T`.
#[derive(Debug)]
pub struct TypedHandle<T> {
    pub handle: u64,
    pub marker: PhantomData<T>,
}

impl<T> TypedHandle<T> {
    /// Tag an untyped handle (known by the caller to refer to a `T`).
    pub fn from_handle_unchecked(handle: u64) -> (r: TypedHandle<T>)
        ensures
            r.handle == handle,
    {
        TypedHandle { handle, marker: PhantomData }
    }

    /// The untyped handle.
    pub fn to_handle(&self) -> (r: u64)
        ensures
            r == self.handle,
    {
        self.handle
    }
}

/// Shape contract for a generated `Py<TypeName>` wrapper: it holds a
/// `TypedHandle<Concrete>` and converts to and from one without loss.
pub trait PyTypeWrapper: Sized {
    /// The concrete type this wrapper is the Python face of.
    type Concrete;

    /// The handle the wrapper holds.
    spec fn held(&self) -> u64;

    fn from_typed_handle(handle: TypedHandle<Self::Concrete>) -> (r: Self)
        ensures
            r.held() == handle.handle,
    ;

    fn to_typed_handle(&self) -> (r: TypedHandle<Self::Concrete>)
        ensures
            r.handle == self.held(),
    ;
}

/// Declare the Python wrapper of a type.
pub trait PyMapTarget: Sized {
    type PyClass: PyTypeWrapper<Concrete = Self>;
}

/// The wrapper shape the generators emit: a struct holding the typed handle.
#[derive(Debug)]
pub struct HandleWrapper<T> {
    pub ptr: TypedHandle<T>,
}

impl<T> PyTypeWrapper for HandleWrapper<T> {
    type Concrete = T;

    open spec fn held(&self) -> u64 {
        self.ptr.handle
    }

    fn from_typed_handle(handle: TypedHandle<T>) -> (r: Self) {
        HandleWrapper { ptr: handle }
    }

    fn to_typed_handle(&self) -> (r: TypedHandle<T>) {
        TypedHandle::from_handle_unchecked(self.ptr.to_handle())
    }
}

impl<T: PyMapTarget> TypedHandle<T> {
    /// `<TypedHandle<T> as PyMap>::into_py`: the handle as `T`'s wrapper.
    pub fn into_py(self) -> (r: T::PyClass)
        ensures
            r.held() == self.handle,
    {
        T::PyClass::from_typed_handle(self)
    }

    /// `<TypedHandle<T> as PyMap>::from_py`: the handle a wrapper holds.
    pub fn from_py(py: &T::PyClass) -> (r: TypedHandle<T>)
        ensures
            r.handle == py.held(),
    {
        py.to_typed_handle()
    }
}

/// Law: a typed handle sent to Python (`into_py`) and read back from the
/// wrapper (`from_py`) is the same handle.
pub proof fn lemma_typed_handle_roundtrip<T: PyMapTarget>(
    h: TypedHandle<T>,
    py: T::PyClass,
    back: TypedHandle<T>,
)
    requires
        py.held() == h.handle,
        back.handle == py.held(),
    ensures
        back == h,
{
}

} // verus!

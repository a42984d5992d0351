use vstd::prelude::*;

verus! {

// A small program in both phases, of the shape the call check inspects. Its
// `init_*` functions are the ones a host places in the restricted text
// section; the others stay normal.

/// A normal free function.
pub fn foo() {
}

/// A free function of the restricted phase.
pub fn init_foo() {
}

/// A type with inherent methods of both phases.
pub struct A;

impl A {
    /// A normal method.
    pub fn foo(&self) {
    }

    /// A method of the restricted phase.
    pub fn init_foo(&self) {
    }
}

/// A trait whose default methods belong to both phases.
pub trait AExt {
    /// A normal default method.
    fn foo(&self) {
    }

    /// A default method of the restricted phase.
    fn init_foo(&self) {
    }
}

/// A type that keeps both default methods of `AExt`.
pub struct B;

impl AExt for B {
}

/// A type that replaces both default methods of `AExt` with its own.
pub struct C;

impl AExt for C {
    fn foo(&self) {
    }

    fn init_foo(&self) {
    }
}

} // verus!

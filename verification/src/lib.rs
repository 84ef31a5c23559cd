//! A verified weak-reference primitive for a dynamic-language runtime.
//!
//! The runtime ([`pyobject`]) keeps every object in a heap slot with a
//! strong-reference count; an object is reclaimed exactly when its count
//! drops to zero.  A weak handle names a slot without contributing to its
//! count, and can be promoted back to a strong handle if and only if the
//! slot is still live.  The [`weakref`] module publishes this primitive to
//! script code as a class `ref` inside a namespace `_weakref`: constructing
//! `ref(x)` installs a weak observer of `x`, and invoking the instance
//! yields `x` while it lives and the runtime's absent-value sentinel once it
//! has been reclaimed.
//!
//! Every operation's contract is a transition of the heap model in
//! [`model`], and [`laws`] proves the lifetime discipline over arbitrary
//! runs of those transitions: a weak handle retains nothing, a strongly held
//! referent stays recoverable, reclamation is terminal, dereferencing is
//! idempotent, and distinct referents are independent.

pub mod laws;
pub mod model;
pub mod pyobject;
pub mod weakref;

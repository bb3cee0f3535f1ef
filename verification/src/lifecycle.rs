//! Shared ownership of a host object reference, and its release law.
//!
//! Each opaque handle wrapper is a reference-counted proxy owning a single
//! host object reference. The wrapper may be cloned freely; the host-side
//! close notification must fire exactly once, when the last owner releases,
//! regardless of which thread that is.
//!
//! The model below states that law over every sequence of retain and
//! release operations, and `Handle` is the executable proxy the wrappers
//! are built on: releasing it reports whether the caller was the last
//! owner, so that exactly one releaser performs the close notification.

use std::sync::Arc;
use vstd::prelude::*;

verus! {

/// One step in the life of a handle: a new owner appears (a clone), or an
/// owner goes away (a drop).
#[derive(Clone, Copy, Debug, PartialEq, Eq, Structural)]
pub enum OwnerOp {
    Retain,
    Release,
}

/// How many owners remain after a sequence of steps, starting from the one
/// owner that creation hands out.
pub open spec fn owners_after(ops: Seq<OwnerOp>) -> int
    decreases ops.len(),
{
    if ops.len() == 0 {
        1
    } else {
        owners_after(ops.drop_last()) + if ops.last() is Retain {
            1int
        } else {
            -1int
        }
    }
}

/// A sequence of steps is well formed when every step is taken while at
/// least one owner is still alive: nobody can clone or drop a handle that
/// no longer exists.
pub open spec fn ops_wf(ops: Seq<OwnerOp>) -> bool
    decreases ops.len(),
{
    ops.len() == 0 || (ops_wf(ops.drop_last()) && owners_after(ops.drop_last()) > 0)
}

/// How many close notifications a sequence of steps triggers: one for each
/// release that leaves no owner behind.
pub open spec fn closes_fired(ops: Seq<OwnerOp>) -> int
    decreases ops.len(),
{
    if ops.len() == 0 {
        0
    } else {
        closes_fired(ops.drop_last()) + if ops.last() is Release && owners_after(ops) == 0 {
            1int
        } else {
            0int
        }
    }
}

/// The release law: over every well-formed sequence of clones and drops,
/// the close notification fires exactly once if the last owner has been
/// released, and not at all while owners remain — never twice, whatever
/// the order of the steps.
pub proof fn lemma_close_fires_exactly_once(ops: Seq<OwnerOp>)
    requires
        ops_wf(ops),
    ensures
        owners_after(ops) >= 0,
        closes_fired(ops) == if owners_after(ops) == 0 {
            1int
        } else {
            0int
        },
    decreases ops.len(),
{
    if ops.len() > 0 {
        lemma_close_fires_exactly_once(ops.drop_last());
    }
}

/// Relies on the standard library's `Arc::clone`: the clone shares the same
/// allocation, so it denotes the same inner value.
#[verifier::external_body]
fn arc_retain<T>(a: &Arc<T>) -> (r: Arc<T>)
    ensures
        r == *a,
{
    a.clone()
}

/// Relies on the standard library's `Arc::into_inner`: it returns the inner
/// value if and only if the argument was the last owner, and when
/// `into_inner` is called on every clone of an `Arc`, exactly one of those
/// calls returns the value.
#[verifier::external_body]
fn arc_release<T>(a: Arc<T>) -> (r: Option<T>)
    ensures
        r matches Some(t) ==> t == *a,
{
    Arc::into_inner(a)
}

/// Relies on the standard library's `Arc` dereference: reading through the
/// shared pointer yields the inner value.
#[verifier::external_body]
fn arc_get<T>(a: &Arc<T>) -> (r: &T)
    ensures
        *r == **a,
{
    &**a
}

/// A reference-counted owner of one value of resource data.
///
/// Cloning adds an owner; `release` gives the owner up and hands the
/// resource back to exactly one of the releasers — the last one — which
/// then performs the close notification. This realizes the model above:
/// `clone` is a retain step, `release` a release step, and the `Some`
/// result marks the single step on which the close may fire.
pub struct Handle<T> {
    inner: Arc<T>,
}

impl<T> Handle<T> {
    /// What the handle owns.
    pub closed spec fn resource(self) -> T {
        *self.inner
    }

    /// Create the first owner of a resource.
    pub fn new(resource: T) -> (r: Handle<T>)
        ensures
            r.resource() == resource,
    {
        Handle { inner: Arc::new(resource) }
    }

    /// Add an owner of the same resource.
    pub fn retain(&self) -> (r: Handle<T>)
        ensures
            r.resource() == self.resource(),
    {
        Handle { inner: arc_retain(&self.inner) }
    }

    /// Give this owner up. The last owner — and only the last — gets the
    /// resource back, to run the close notification on it.
    pub fn release(self) -> (r: Option<T>)
        ensures
            r matches Some(t) ==> t == self.resource(),
    {
        arc_release(self.inner)
    }

    /// Read the owned resource.
    pub fn get(&self) -> (r: &T)
        ensures
            *r == self.resource(),
    {
        arc_get(&self.inner)
    }
}

} // verus!

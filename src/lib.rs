//! Update a value either by replacing it outright or by computing the new
//! value from the old one, through a single method.
//!
//! A plain value `v` used as an update ignores the old value and yields `v`;
//! a closure `f` used as an update consumes the old value and yields `f(old)`.
//! The two blanket implementations of [`UpSet`] would overlap without the
//! marker parameter, so each one carries its own marker type
//! ([`Assign`] for a plain value, [`Update`] for a closure) which type
//! inference picks for the caller.
use vstd::prelude::*;

verus! {

/// Set a new value, or compute it from the old one with a closure.
///
/// `self` is the update; `value` is the old value, and the result is the new
/// one. Which form of update is meant is told apart by `Marker`.
pub trait UpSet<T, Marker>: Sized {
    /// Holds when this update may be applied to the old value `value`.
    spec fn up_set_requires(&self, value: T) -> bool;

    /// Holds when `r` is a possible new value after applying this update to
    /// the old value `value`.
    spec fn up_set_ensures(&self, value: T, r: T) -> bool;

    fn up_set(self, value: T) -> (r: T)
        requires
            self.up_set_requires(value),
        ensures
            self.up_set_ensures(value, r),
    ;
}

/// Marker for a direct replacement: the update is the new value itself.
///
/// Only its type matters; the one variant is there because a verified
/// datatype must be inhabited.
pub enum Assign {
    Marker,
}

impl<T> UpSet<T, Assign> for T {
    open spec fn up_set_requires(&self, value: T) -> bool {
        true
    }

    open spec fn up_set_ensures(&self, value: T, r: T) -> bool {
        r == *self
    }

    fn up_set(self, _value: T) -> (r: T)
        ensures
            r == self,
    {
        self
    }
}

/// Marker for a transformation: the update is a closure applied once to the
/// old value.
///
/// Only its type matters; the one variant is there because a verified
/// datatype must be inhabited.
pub enum Update {
    Marker,
}

impl<T, F: FnOnce(T) -> T> UpSet<T, Update> for F {
    open spec fn up_set_requires(&self, value: T) -> bool {
        self.requires((value,))
    }

    open spec fn up_set_ensures(&self, value: T, r: T) -> bool {
        self.ensures((value,), r)
    }

    fn up_set(self, value: T) -> (r: T)
        ensures
            self.ensures((value,), r),
    {
        (self)(value)
    }
}

/// Holds when the closure `f` gives at most one result for each argument, as
/// a pure function does.
pub open spec fn deterministic<T, F: FnOnce(T) -> T>(f: F) -> bool {
    forall|x: T, a: T, b: T| #[trigger] f.ensures((x,), a) && #[trigger] f.ensures((x,), b) ==> a == b
}

/// A direct replacement ignores the old value: updating `v1` with the plain
/// value `v2` yields `v2`.
pub proof fn lemma_assign_ignores_old<T>(v1: T, v2: T)
    ensures
        <T as UpSet<T, Assign>>::up_set_requires(&v2, v1),
        forall|r: T| <T as UpSet<T, Assign>>::up_set_ensures(&v2, v1, r) ==> r == v2,
{
}

/// Updating with a pure closure `f` yields `f(v)`.
pub proof fn lemma_update_applies<T, F: FnOnce(T) -> T>(v: T, f: F)
    requires
        deterministic(f),
    ensures
        forall|r: T, m: T|
            #[trigger] <F as UpSet<T, Update>>::up_set_ensures(&f, v, r) && #[trigger] f.ensures((v,), m)
                ==> r == m,
{
}

/// Replacing twice with the same plain value gives that value: updating
/// `v1` with `v2`, then the result with `v2` again, yields `v2`.
pub proof fn lemma_assign_idempotent<T>(v1: T, v2: T)
    ensures
        forall|r1: T, r2: T|
            #[trigger] <T as UpSet<T, Assign>>::up_set_ensures(&v2, v1, r1)
                && #[trigger] <T as UpSet<T, Assign>>::up_set_ensures(&v2, r1, r2) ==> r2 == v2,
{
}

/// Updates compose: updating `v` with a pure closure `f`, then the result with
/// a pure closure `g`, yields `g(f(v))`.
pub proof fn lemma_update_composes<T, F: FnOnce(T) -> T, G: FnOnce(T) -> T>(v: T, f: F, g: G)
    requires
        deterministic(f),
        deterministic(g),
    ensures
        forall|r1: T, r2: T, m: T, n: T|
            #[trigger] <F as UpSet<T, Update>>::up_set_ensures(&f, v, r1)
                && #[trigger] <G as UpSet<T, Update>>::up_set_ensures(&g, r1, r2)
                && #[trigger] f.ensures((v,), m) && #[trigger] g.ensures((m,), n) ==> r2 == n,
{
}

} // verus!

//! Shared, immutable nodes.

use std::rc::Rc;
use vstd::prelude::*;

verus! {

/// A reference-counted handle to an immutable node. Duplicating a handle
/// shares the node; in specifications a handle is just the value it points to.
#[derive(Debug, PartialEq, PartialOrd)]
pub struct P<T>(pub Rc<T>);

/// `Rc::clone`: the new handle points to the same allocation, so it
/// denotes the same value.
#[verifier::external_body]
fn share<T>(r: &Rc<T>) -> (res: Rc<T>)
    ensures
        res == *r,
{
    Rc::clone(r)
}

impl<T> P<T> {
    pub fn new(v: T) -> (r: Self)
        ensures
            *r.0 == v,
    {
        Self(Rc::new(v))
    }
}

impl<T> std::ops::Deref for P<T> {
    type Target = T;

    fn deref(&self) -> (r: &T)
        ensures
            *r == *self.0,
    {
        &*self.0
    }
}

impl<T> Clone for P<T> {
    fn clone(&self) -> (r: Self)
        ensures
            r == *self,
    {
        Self(share(&self.0))
    }
}

/// Shorthand for [`P::new`].
pub fn p<T>(v: T) -> (r: P<T>)
    ensures
        *r.0 == v,
{
    P::new(v)
}

} // verus!

use std::rc::Rc;
use std::sync::Arc;
use vstd::prelude::*;

verus! {

/// A shared handle that can be built around a value.
pub trait ObjectMethods<T>: Sized {
    /// The value the handle refers to.
    spec fn contents(&self) -> T;

    fn construct(value: T) -> (r: Self)
        ensures
            r.contents() == value,
    ;
}

impl<T> ObjectMethods<T> for Rc<T> {
    open spec fn contents(&self) -> T {
        **self
    }

    fn construct(value: T) -> (r: Rc<T>) {
        Rc::new(value)
    }
}

impl<T> ObjectMethods<T> for Arc<T> {
    open spec fn contents(&self) -> T {
        **self
    }

    fn construct(value: T) -> (r: Arc<T>) {
        Arc::new(value)
    }
}

} // verus!

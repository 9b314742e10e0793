//! Shared resources.

use std::sync::Arc;
use vstd::prelude::*;

verus! {

/// Calls `Arc::clone`. Trusted: the copy points to the same value.
#[verifier::external_body]
pub(crate) fn clone_arc<T>(shared: &Arc<T>) -> (copy: Arc<T>)
    ensures
        copy == *shared,
{
    shared.clone()
}

/// Whether `copy` can be what `Arc::clone` returns for `shared`: a pointer to the same instance.
pub open(crate) spec fn same_instance<T>(shared: Arc<T>, copy: Arc<T>) -> bool {
    call_ensures(clone_arc::<T>, (&shared,), copy)
}

/// A resource of the application, shared by all that use it.
pub struct Res<T>(pub Arc<T>);

impl<T> Clone for Res<T> {
    fn clone(&self) -> (copy: Self)
        ensures
            copy == *self,
            same_instance(self.0, copy.0),
    {
        Res(clone_arc(&self.0))
    }
}

impl<T> std::ops::Deref for Res<T> {
    type Target = T;

    fn deref(&self) -> (value: &T)
        ensures
            *value == *self.0,
    {
        &self.0
    }
}

/// `same_instance` says that a pointer came of copying another.
proof fn law_relation_is_a_call<T>(shared: Arc<T>, copy: Arc<T>)
    ensures
        same_instance(shared, copy) <==> call_ensures(clone_arc::<T>, (&shared,), copy),
{
}

/// A copy of a resource is the same instance, and both show its value.
pub proof fn law_copies_share_the_resource<T>(resource: Res<T>, copy: Res<T>, value: &T)
    requires
        call_ensures(<Res<T> as Clone>::clone, (&resource,), copy),
        call_ensures(<Res<T> as std::ops::Deref>::deref, (&copy,), value),
    ensures
        same_instance(resource.0, copy.0),
        *value == *resource.0,
{
}

} // verus!

//! The life of an index handle: usable until it is disposed, refused after.

use vstd::prelude::*;

use crate::errors::{check_not_disposed, disposed_message, live_resource, BridgeErrorCode, BridgeResult};

verus! {

/// A handle on a shared resource that can be released once and for all.
#[derive(Debug)]
pub struct Handle<T> {
    resource: Option<T>,
    disposed: bool,
}

impl<T> Handle<T> {
    /// Whether the handle has been disposed.
    pub closed spec fn is_disposed(&self) -> bool {
        self.disposed
    }

    /// The resource the handle still holds.
    pub closed spec fn held(&self) -> Option<T> {
        self.resource
    }

    /// A handle holds its resource exactly until it is disposed.
    #[verifier::type_invariant]
    spec fn holds_until_disposed(&self) -> bool {
        self.disposed <==> self.resource is None
    }

    /// A live handle on `resource`.
    pub fn new(resource: T) -> (h: Handle<T>)
        ensures
            !h.is_disposed(),
            h.held() == Some(resource),
    {
        Handle { resource: Some(resource), disposed: false }
    }

    /// Releases the resource and refuses every later use. Disposing again
    /// changes nothing.
    pub fn dispose(&mut self)
        ensures
            final(self).is_disposed(),
            final(self).held() is None,
    {
        *self = Handle { resource: None, disposed: true };
    }

    /// Whether the handle has been disposed.
    pub fn disposed(&self) -> (b: bool)
        ensures
            b == self.is_disposed(),
    {
        self.disposed
    }

    /// The resource, or `Disposed` once the handle has been disposed.
    pub fn acquire(&self) -> (r: BridgeResult<&T>)
        ensures
            r is Ok <==> !self.is_disposed(),
            r matches Ok(v) ==> self.held() == Some(*v),
            r matches Err(e) ==> e.code == BridgeErrorCode::Disposed && e.message@ == disposed_message(),
    {
        proof {
            use_type_invariant(self);
        }
        match check_not_disposed(self.disposed) {
            Ok(()) => {},
            Err(e) => {
                return Err(e);
            },
        }
        live_resource(self.resource.as_ref())
    }
}

} // verus!

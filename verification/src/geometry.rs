use crate::context_handle::ContextHandle;
use crate::error::{Error, ErrorView, GResult};
use std::sync::Arc;
use vstd::prelude::*;

verus! {

/// What a [`Geometry`] is to this crate: the handle of the native geometry and
/// the raw handle of its context.
pub struct GeometryView {
    pub handle: usize,
    pub context: usize,
}

/// An ordinary geometry of the engine, as far as preparing it and testing
/// against it need it: its handle, never null, and a reference to its context.
#[derive(Debug, PartialEq, Eq)]
pub struct Geometry {
    ptr: usize,
    context: Arc<ContextHandle>,
}

/// The name under which a constructor of [`Geometry`] reports a null handle.
pub open spec fn geometry_constructor(caller: Seq<char>) -> Seq<char> {
    "Geometry::"@ + caller
}

impl View for Geometry {
    type V = GeometryView;

    closed spec fn view(&self) -> GeometryView {
        GeometryView { handle: self.ptr, context: self.context.raw() }
    }
}

impl Geometry {
    #[verifier::type_invariant]
    spec fn non_null(&self) -> bool {
        self.ptr != 0
    }

    /// Wraps the handle `ptr` that the engine gave out under `context`. A null
    /// handle is refused, with the name of the constructor that `caller` stands
    /// for; every other handle is accepted.
    pub fn new_from_raw(ptr: usize, context: Arc<ContextHandle>, caller: &str) -> (r: GResult<
        Geometry,
    >)
        ensures
            match r {
                Ok(g) => ptr != 0 && g@ == (GeometryView { handle: ptr, context: context.raw() }),
                Err(e) => ptr == 0 && e@ == ErrorView::NoConstructionFromNullPtr(
                    geometry_constructor(caller@),
                ),
            },
    {
        if ptr == 0 {
            let mut name = String::from_str("Geometry::");
            name.append(caller);
            return Err(Error::NoConstructionFromNullPtr(name));
        }
        Ok(Geometry { ptr, context })
    }

    /// The handle of the native geometry.
    pub fn as_raw(&self) -> (r: usize)
        ensures
            r == self@.handle,
            r != 0,
    {
        proof {
            use_type_invariant(self);
        }
        self.ptr
    }

    /// The raw handle of the context of this geometry.
    pub fn get_raw_context(&self) -> (r: usize)
        ensures
            r == self@.context,
    {
        self.context.as_raw()
    }

    /// A further reference to the context of this geometry.
    pub fn clone_context(&self) -> (r: Arc<ContextHandle>)
        ensures
            r.raw() == self@.context,
    {
        Arc::clone(&self.context)
    }
}

} // verus!

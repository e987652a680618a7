use crate::context_handle::ContextHandle;
use crate::error::{Error, ErrorView, GResult, PredicateType};
use crate::functions::{check_geos_predicate, predicate_outcome};
use crate::geometry::{Geometry, GeometryView};
use std::sync::Arc;
use vstd::prelude::*;

verus! {

/// What a [`PreparedGeometry`] is: the handle of the native prepared geometry
/// and the raw handle of the context that it reports to.
pub struct PreparedGeometryView {
    pub handle: usize,
    pub context: usize,
}

/// A geometry that the engine has prepared for repeated tests.
///
/// The object is the only owner of its native handle, which is never null, and
/// it holds a reference of its own to an execution context. It is neither
/// copied nor cloned, so [`PreparedGeometry::destroy`], which consumes it, is
/// reached at most once for each handle.
#[derive(Debug)]
pub struct PreparedGeometry {
    ptr: usize,
    context: Arc<ContextHandle>,
}

/// The native call that prepares a geometry, and the context reference that
/// the prepared geometry will hold once the engine has answered.
#[derive(Debug)]
pub struct PrepareCall {
    geometry: usize,
    context: Arc<ContextHandle>,
}

/// The arguments of the native call that prepares a geometry.
pub struct PrepareCallView {
    pub context: usize,
    pub geometry: usize,
}

/// The native call that tests one relation between a prepared geometry and an
/// ordinary one: which relation, and the three handles that the engine takes.
#[derive(Clone, Copy, Debug, PartialEq, Eq, Structural)]
pub struct PredicateCall {
    pub predicate: PredicateType,
    pub context: usize,
    pub prepared: usize,
    pub other: usize,
}

/// The native call that frees a prepared geometry. It keeps the context alive
/// until the call has been made; dropping it releases the context.
#[derive(Debug)]
pub struct DestroyCall {
    prepared: usize,
    context: Arc<ContextHandle>,
}

/// The arguments of the native call that frees a prepared geometry.
pub struct DestroyCallView {
    pub context: usize,
    pub prepared: usize,
}

/// The name under which a constructor of [`PreparedGeometry`] reports a null
/// handle.
pub open spec fn prepared_constructor(caller: Seq<char>) -> Seq<char> {
    "PreparedGeometry::"@ + caller
}

/// What wrapping the handle `ptr` under the context `context` gives, for the
/// constructor `caller`: a failure that names the constructor where the handle
/// is null, else the prepared geometry of that handle and context.
pub open spec fn construction_outcome(ptr: usize, context: usize, caller: Seq<char>) -> Result<
    PreparedGeometryView,
    ErrorView,
> {
    if ptr == 0 {
        Err(ErrorView::NoConstructionFromNullPtr(prepared_constructor(caller)))
    } else {
        Ok(PreparedGeometryView { handle: ptr, context })
    }
}

/// A result of construction with both sides as their views.
pub open spec fn construction_view(r: GResult<PreparedGeometry>) -> Result<
    PreparedGeometryView,
    ErrorView,
> {
    match r {
        Ok(prepared) => Ok(prepared@),
        Err(e) => Err(e@),
    }
}

impl View for PrepareCall {
    type V = PrepareCallView;

    closed spec fn view(&self) -> PrepareCallView {
        PrepareCallView { context: self.context.raw(), geometry: self.geometry }
    }
}

impl PrepareCall {
    #[verifier::type_invariant]
    spec fn non_null(&self) -> bool {
        self.geometry != 0
    }

    /// The raw context to hand to the engine.
    pub fn context(&self) -> (r: usize)
        ensures
            r == self@.context,
    {
        self.context.as_raw()
    }

    /// The handle of the geometry to prepare, never null.
    pub fn geometry(&self) -> (r: usize)
        ensures
            r == self@.geometry,
            r != 0,
    {
        proof {
            use_type_invariant(self);
        }
        self.geometry
    }

    /// Takes the handle `ptr` that the engine returned for this call. A null
    /// handle gives the failure that names `PreparedGeometry::new`, and the
    /// context reference is released. Any other handle gives the prepared
    /// geometry that owns it and holds the context of the call.
    pub fn complete(self, ptr: usize) -> (r: GResult<PreparedGeometry>)
        ensures
            construction_view(r) == construction_outcome(ptr, self@.context, "new"@),
    {
        PreparedGeometry::new_from_raw(ptr, self.context, "new")
    }
}

impl PredicateCall {
    /// Reads the code by which the engine answered this call: a truth value,
    /// or the failure that names the relation of this call.
    pub fn complete(&self, code: i32) -> (r: GResult<bool>)
        ensures
            r == predicate_outcome(code, self.predicate),
    {
        check_geos_predicate(code, self.predicate)
    }
}

impl View for DestroyCall {
    type V = DestroyCallView;

    closed spec fn view(&self) -> DestroyCallView {
        DestroyCallView { context: self.context.raw(), prepared: self.prepared }
    }
}

impl DestroyCall {
    #[verifier::type_invariant]
    spec fn non_null(&self) -> bool {
        self.prepared != 0
    }

    /// The raw context to hand to the engine.
    pub fn context(&self) -> (r: usize)
        ensures
            r == self@.context,
    {
        self.context.as_raw()
    }

    /// The handle to free, never null.
    pub fn prepared(&self) -> (r: usize)
        ensures
            r == self@.prepared,
            r != 0,
    {
        proof {
            use_type_invariant(self);
        }
        self.prepared
    }
}

impl View for PreparedGeometry {
    type V = PreparedGeometryView;

    closed spec fn view(&self) -> PreparedGeometryView {
        PreparedGeometryView { handle: self.ptr, context: self.context.raw() }
    }
}

/// The native call by which the prepared geometry `prepared` tests `predicate`
/// against the geometry `other`: under the context of the prepared geometry,
/// whatever the context of the other.
pub open spec fn predicate_call(
    prepared: PreparedGeometryView,
    predicate: PredicateType,
    other: GeometryView,
) -> PredicateCall {
    PredicateCall {
        predicate,
        context: prepared.context,
        prepared: prepared.handle,
        other: other.handle,
    }
}

impl PreparedGeometry {
    #[verifier::type_invariant]
    spec fn non_null(&self) -> bool {
        self.ptr != 0
    }

    /// Begins the preparation of `g`: the call to make is on the handle and
    /// under the context of `g`, and it carries a context reference of its own,
    /// so that the prepared geometry may outlive `g`.
    pub fn new(g: &Geometry) -> (r: PrepareCall)
        ensures
            r@ == (PrepareCallView { context: g@.context, geometry: g@.handle }),
            r@.geometry != 0,
    {
        PrepareCall { geometry: g.as_raw(), context: g.clone_context() }
    }

    /// Wraps the handle `ptr` that the engine gave out under `context`. A null
    /// handle is refused, with the name of the constructor that `caller` stands
    /// for; every other handle is accepted.
    pub fn new_from_raw(ptr: usize, context: Arc<ContextHandle>, caller: &str) -> (r: GResult<
        PreparedGeometry,
    >)
        ensures
            construction_view(r) == construction_outcome(ptr, context.raw(), caller@),
    {
        if ptr == 0 {
            let mut name = String::from_str("PreparedGeometry::");
            name.append(caller);
            return Err(Error::NoConstructionFromNullPtr(name));
        }
        Ok(PreparedGeometry { ptr, context })
    }

    /// The call that asks the engine whether `predicate` holds between this
    /// geometry and `g2`.
    pub fn call(&self, predicate: PredicateType, g2: &Geometry) -> (r: PredicateCall)
        ensures
            r == predicate_call(self@, predicate, g2@),
            r.prepared != 0,
            r.other != 0,
    {
        proof {
            use_type_invariant(self);
        }
        PredicateCall {
            predicate,
            context: self.context.as_raw(),
            prepared: self.ptr,
            other: g2.as_raw(),
        }
    }

    /// The call that asks the engine whether no point of `g2` lies outside this
    /// geometry while their interiors meet.
    pub fn contains(&self, g2: &Geometry) -> (r: PredicateCall)
        ensures
            r == predicate_call(self@, PredicateType::PreparedContains, g2@),
            r.prepared != 0,
            r.other != 0,
    {
        self.call(PredicateType::PreparedContains, g2)
    }

    /// The call that asks the engine whether every point of `g2` lies in the
    /// interior of this geometry.
    pub fn contains_properly(&self, g2: &Geometry) -> (r: PredicateCall)
        ensures
            r == predicate_call(self@, PredicateType::PreparedContainsProperly, g2@),
            r.prepared != 0,
            r.other != 0,
    {
        self.call(PredicateType::PreparedContainsProperly, g2)
    }

    /// The call that asks the engine whether no point of this geometry lies
    /// outside `g2`.
    pub fn covered_by(&self, g2: &Geometry) -> (r: PredicateCall)
        ensures
            r == predicate_call(self@, PredicateType::PreparedCoveredBy, g2@),
            r.prepared != 0,
            r.other != 0,
    {
        self.call(PredicateType::PreparedCoveredBy, g2)
    }

    /// The call that asks the engine whether no point of `g2` lies outside this
    /// geometry.
    pub fn covers(&self, g2: &Geometry) -> (r: PredicateCall)
        ensures
            r == predicate_call(self@, PredicateType::PreparedCovers, g2@),
            r.prepared != 0,
            r.other != 0,
    {
        self.call(PredicateType::PreparedCovers, g2)
    }

    /// The call that asks the engine whether this geometry and `g2` have some but
    /// not all of their interior points in common.
    pub fn crosses(&self, g2: &Geometry) -> (r: PredicateCall)
        ensures
            r == predicate_call(self@, PredicateType::PreparedCrosses, g2@),
            r.prepared != 0,
            r.other != 0,
    {
        self.call(PredicateType::PreparedCrosses, g2)
    }

    /// The call that asks the engine whether this geometry and `g2` have no point
    /// in common.
    pub fn disjoint(&self, g2: &Geometry) -> (r: PredicateCall)
        ensures
            r == predicate_call(self@, PredicateType::PreparedDisjoint, g2@),
            r.prepared != 0,
            r.other != 0,
    {
        self.call(PredicateType::PreparedDisjoint, g2)
    }

    /// The call that asks the engine whether this geometry and `g2` have a point
    /// in common.
    pub fn intersects(&self, g2: &Geometry) -> (r: PredicateCall)
        ensures
            r == predicate_call(self@, PredicateType::PreparedIntersects, g2@),
            r.prepared != 0,
            r.other != 0,
    {
        self.call(PredicateType::PreparedIntersects, g2)
    }

    /// The call that asks the engine whether this geometry and `g2` share some but
    /// not all of their points, in an intersection of their own dimension.
    pub fn overlaps(&self, g2: &Geometry) -> (r: PredicateCall)
        ensures
            r == predicate_call(self@, PredicateType::PreparedOverlaps, g2@),
            r.prepared != 0,
            r.other != 0,
    {
        self.call(PredicateType::PreparedOverlaps, g2)
    }

    /// The call that asks the engine whether this geometry and `g2` meet on their
    /// boundaries only.
    pub fn touches(&self, g2: &Geometry) -> (r: PredicateCall)
        ensures
            r == predicate_call(self@, PredicateType::PreparedTouches, g2@),
            r.prepared != 0,
            r.other != 0,
    {
        self.call(PredicateType::PreparedTouches, g2)
    }

    /// The call that asks the engine whether this geometry lies inside `g2`.
    pub fn within(&self, g2: &Geometry) -> (r: PredicateCall)
        ensures
            r == predicate_call(self@, PredicateType::PreparedWithin, g2@),
            r.prepared != 0,
            r.other != 0,
    {
        self.call(PredicateType::PreparedWithin, g2)
    }

    /// The handle of the native prepared geometry.
    pub fn as_raw(&self) -> (r: usize)
        ensures
            r == self@.handle,
            r != 0,
    {
        proof {
            use_type_invariant(self);
        }
        self.ptr
    }

    /// The raw handle of the context that this object holds.
    pub fn get_raw_context(&self) -> (r: usize)
        ensures
            r == self@.context,
    {
        self.context.as_raw()
    }

    /// A further reference to the context that this object holds.
    pub fn clone_context(&self) -> (r: Arc<ContextHandle>)
        ensures
            r.raw() == self@.context,
    {
        Arc::clone(&self.context)
    }

    /// Lets go of the context held so far and holds `context` instead. The
    /// native handle stays as it is: whether the engine accepts it under the
    /// new context is for the caller to know.
    pub fn set_context_handle(&mut self, context: ContextHandle)
        ensures
            final(self)@ == (PreparedGeometryView {
                handle: old(self)@.handle,
                context: context.raw(),
            }),
    {
        proof {
            use_type_invariant(&*self);
        }
        self.context = Arc::new(context);
    }

    /// The context that this object holds.
    pub fn get_context_handle(&self) -> (r: &ContextHandle)
        ensures
            r.raw() == self@.context,
    {
        &self.context
    }

    /// Ends the life of this object: the call to make frees its handle under
    /// its context, and carries the context reference until it is dropped.
    pub fn destroy(self) -> (r: DestroyCall)
        ensures
            r@ == (DestroyCallView { context: self@.context, prepared: self@.handle }),
            r@.prepared != 0,
    {
        proof {
            use_type_invariant(&self);
        }
        DestroyCall { prepared: self.ptr, context: self.context }
    }
}

/// A prepared geometry tests under the context of the geometry that it was
/// prepared from, on the handle that the engine returned for it, whatever the
/// context of the geometry that it is tested against.
pub proof fn lemma_test_runs_under_source_context(
    source: GeometryView,
    ptr: usize,
    predicate: PredicateType,
    other: GeometryView,
)
    requires
        ptr != 0,
    ensures
        construction_outcome(ptr, source.context, "new"@) matches Ok(prepared) && predicate_call(
            prepared,
            predicate,
            other,
        ) == (PredicateCall {
            predicate,
            context: source.context,
            prepared: ptr,
            other: other.handle,
        }),
{
}

} // verus!

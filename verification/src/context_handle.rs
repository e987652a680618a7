use vstd::prelude::*;

verus! {

/// The execution context that the engine wants with every call. It is made and
/// torn down elsewhere; here it is the raw handle under which the engine knows
/// it.
#[derive(Debug, PartialEq, Eq)]
pub struct ContextHandle {
    raw: usize,
}

impl ContextHandle {
    /// The raw handle of this context.
    pub closed spec fn raw(&self) -> usize {
        self.raw
    }

    /// The context that the engine knows under `raw`.
    pub fn from_raw(raw: usize) -> (r: ContextHandle)
        ensures
            r.raw() == raw,
    {
        ContextHandle { raw }
    }

    /// The raw handle, as the engine takes it.
    pub fn as_raw(&self) -> (r: usize)
        ensures
            r == self.raw(),
    {
        self.raw
    }
}

} // verus!

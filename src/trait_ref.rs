//! A builder for trait references.
use vstd::prelude::*;
use crate::ast::{Ident, NodeId, Path, TraitRef, DUMMY_NODE_ID};
use crate::invoke::{Identity, Invoke};
use crate::path::PathBuilder;

verus! {

/// Builds a reference to a trait; the one thing it needs is the trait's
/// path, and it is finished as soon as that path arrives.
pub struct TraitRefBuilder<F = Identity> {
    callback: F,
    ref_id: NodeId,
}

impl<F: Invoke<TraitRef>> TraitRefBuilder<F> {
    /// The receiver of the finished reference.
    pub closed spec fn spec_callback(&self) -> F {
        self.callback
    }

    /// The correlation id the finished reference will carry.
    pub closed spec fn spec_ref_id(&self) -> NodeId {
        self.ref_id
    }

    /// The reference this builder makes of `path`.
    pub open spec fn assemble(&self, path: Path) -> TraitRef {
        TraitRef { path, ref_id: self.spec_ref_id() }
    }

    /// Starts the path of the trait; completing it finishes the reference.
    pub fn new_with_callback(callback: F) -> (r: PathBuilder<Self>)
        ensures
            r.spec_callback().spec_callback() == callback,
            r.spec_callback().spec_ref_id() == DUMMY_NODE_ID,
            !r.spec_path().global,
            r.spec_path().segments@ == Seq::<Ident>::empty(),
    {
        PathBuilder::new_with_callback(TraitRefBuilder { callback, ref_id: DUMMY_NODE_ID })
    }

    /// Starts the path of the trait.
    pub fn path(self) -> (r: PathBuilder<Self>)
        ensures
            r.spec_callback() == self,
            !r.spec_path().global,
            r.spec_path().segments@ == Seq::<Ident>::empty(),
    {
        PathBuilder::new_with_callback(self)
    }

    fn build_path(self, path: Path) -> (r: F::Result)
        requires
            self.spec_callback().accepts(self.assemble(path)),
        ensures
            self.spec_callback().delivers(self.assemble(path), r),
    {
        self.callback.invoke(TraitRef { path, ref_id: self.ref_id })
    }
}

impl<F: Invoke<TraitRef>> Invoke<Path> for TraitRefBuilder<F> {
    type Result = F::Result;

    open spec fn accepts(&self, path: Path) -> bool {
        self.spec_callback().accepts(self.assemble(path))
    }

    open spec fn delivers(&self, path: Path, r: F::Result) -> bool {
        self.spec_callback().delivers(self.assemble(path), r)
    }

    fn invoke(self, path: Path) -> (r: F::Result) {
        self.build_path(path)
    }
}

/// A trait reference finished from the path builder that
/// `new_with_callback` started holds that path and the placeholder id.
pub proof fn lemma_trait_ref_cascade<F: Invoke<TraitRef>>(
    b: TraitRefBuilder<F>,
    path: Path,
    r: F::Result,
)
    requires
        b.spec_ref_id() == DUMMY_NODE_ID,
        b.delivers(path, r),
    ensures
        b.spec_callback().delivers((TraitRef { path, ref_id: DUMMY_NODE_ID }), r),
{
}

} // verus!

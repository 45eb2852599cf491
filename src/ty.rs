//! A builder for types.
use vstd::prelude::*;
use crate::ast::{Ident, Path, Ty};
use crate::invoke::{Identity, Invoke};
use crate::path::PathBuilder;

verus! {


/// Builds one type, then hands it to `F`.
pub struct TyBuilder<F> {
    callback: F,
}

impl TyBuilder<Identity> {
    pub fn new() -> (r: Self)
        ensures
            r.spec_callback() == Identity,
    {
        TyBuilder::new_with_callback(Identity)
    }
}

impl<F: Invoke<Ty>> TyBuilder<F> {
    /// The receiver of the finished type.
    pub closed spec fn spec_callback(&self) -> F {
        self.callback
    }

    pub fn new_with_callback(callback: F) -> (r: Self)
        ensures
            r.spec_callback() == callback,
    {
        TyBuilder { callback }
    }

    /// Hands an already built type to the receiver.
    pub fn build(self, ty: Ty) -> (r: F::Result)
        requires
            self.spec_callback().accepts(ty),
        ensures
            self.spec_callback().delivers(ty, r),
    {
        self.callback.invoke(ty)
    }

    /// The unit type `()`.
    pub fn unit(self) -> (r: F::Result)
        requires
            self.spec_callback().accepts(Ty::Unit),
        ensures
            self.spec_callback().delivers(Ty::Unit, r),
    {
        self.build(Ty::Unit)
    }

    /// The type `_`.
    pub fn infer(self) -> (r: F::Result)
        requires
            self.spec_callback().accepts(Ty::Infer),
        ensures
            self.spec_callback().delivers(Ty::Infer, r),
    {
        self.build(Ty::Infer)
    }


    /// Starts the path that names the type.
    pub fn path(self) -> (r: PathBuilder<Self>)
        ensures
            r.spec_callback() == self,
            !r.spec_path().global,
            r.spec_path().segments@ == Seq::<Ident>::empty(),
    {
        PathBuilder::new_with_callback(self)
    }
}

impl<F: Invoke<Ty>> Invoke<Path> for TyBuilder<F> {
    type Result = F::Result;

    open spec fn accepts(&self, path: Path) -> bool {
        self.spec_callback().accepts(Ty::Path(path))
    }

    open spec fn delivers(&self, path: Path, r: F::Result) -> bool {
        self.spec_callback().delivers(Ty::Path(path), r)
    }

    fn invoke(self, path: Path) -> (r: F::Result) {
        self.build(Ty::Path(path))
    }
}

} // verus!

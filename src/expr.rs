//! A builder for expressions.
use vstd::prelude::*;
use crate::ast::{Expr, Ident, Path};
use crate::invoke::{Identity, Invoke};
use crate::path::PathBuilder;

verus! {

/// Builds one expression, then hands it to `F`.
pub struct ExprBuilder<F> {
    callback: F,
}

impl ExprBuilder<Identity> {
    pub fn new() -> (r: Self)
        ensures
            r.spec_callback() == Identity,
    {
        ExprBuilder::new_with_callback(Identity)
    }
}

impl<F: Invoke<Expr>> ExprBuilder<F> {
    /// The receiver of the finished expression.
    pub closed spec fn spec_callback(&self) -> F {
        self.callback
    }

    pub fn new_with_callback(callback: F) -> (r: Self)
        ensures
            r.spec_callback() == callback,
    {
        ExprBuilder { callback }
    }

    /// Hands an already built expression to the receiver.
    pub fn build(self, expr: Expr) -> (r: F::Result)
        requires
            self.spec_callback().accepts(expr),
        ensures
            self.spec_callback().delivers(expr, r),
    {
        self.callback.invoke(expr)
    }

    /// The integer literal `n`.
    pub fn lit(self, n: u64) -> (r: F::Result)
        requires
            self.spec_callback().accepts(Expr::Lit(n)),
        ensures
            self.spec_callback().delivers(Expr::Lit(n), r),
    {
        self.build(Expr::Lit(n))
    }


    /// Starts the path that names the value.
    pub fn path(self) -> (r: PathBuilder<Self>)
        ensures
            r.spec_callback() == self,
            !r.spec_path().global,
            r.spec_path().segments@ == Seq::<Ident>::empty(),
    {
        PathBuilder::new_with_callback(self)
    }
}

impl<F: Invoke<Expr>> Invoke<Path> for ExprBuilder<F> {
    type Result = F::Result;

    open spec fn accepts(&self, path: Path) -> bool {
        self.spec_callback().accepts(Expr::Path(path))
    }

    open spec fn delivers(&self, path: Path, r: F::Result) -> bool {
        self.spec_callback().delivers(Expr::Path(path), r)
    }

    fn invoke(self, path: Path) -> (r: F::Result) {
        self.build(Expr::Path(path))
    }
}

} // verus!

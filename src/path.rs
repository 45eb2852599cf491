//! A builder for paths.
use vstd::prelude::*;
use crate::ast::{Ident, Path};
use crate::invoke::{Identity, Invoke};

verus! {

/// Builds a path segment by segment, then hands it to `F`.
pub struct PathBuilder<F> {
    callback: F,
    path: Path,
}

impl PathBuilder<Identity> {
    pub fn new() -> (r: Self)
        ensures
            r.spec_callback() == Identity,
            !r.spec_path().global,
            r.spec_path().segments@ == Seq::<Ident>::empty(),
    {
        PathBuilder::new_with_callback(Identity)
    }
}

impl<F: Invoke<Path>> PathBuilder<F> {
    /// The receiver of the finished path.
    pub closed spec fn spec_callback(&self) -> F {
        self.callback
    }

    /// The path as configured so far.
    pub closed spec fn spec_path(&self) -> Path {
        self.path
    }

    pub fn new_with_callback(callback: F) -> (r: Self)
        ensures
            r.spec_callback() == callback,
            !r.spec_path().global,
            r.spec_path().segments@ == Seq::<Ident>::empty(),
    {
        PathBuilder { callback, path: Path { global: false, segments: Vec::new() } }
    }

    /// Makes the path start at the crate root (`::a::b`).
    pub fn global(self) -> (r: Self)
        ensures
            r.spec_callback() == self.spec_callback(),
            r.spec_path().global,
            r.spec_path().segments == self.spec_path().segments,
    {
        let PathBuilder { callback, path } = self;
        PathBuilder { callback, path: Path { global: true, segments: path.segments } }
    }

    /// Appends one segment.
    pub fn id(self, id: Ident) -> (r: Self)
        ensures
            r.spec_callback() == self.spec_callback(),
            r.spec_path().global == self.spec_path().global,
            r.spec_path().segments@ == self.spec_path().segments@.push(id),
    {
        let PathBuilder { callback, mut path } = self;
        path.segments.push(id);
        PathBuilder { callback, path }
    }

    /// Appends each of `ids`, in order.
    pub fn ids(self, ids: Vec<Ident>) -> (r: Self)
        ensures
            r.spec_callback() == self.spec_callback(),
            r.spec_path().global == self.spec_path().global,
            r.spec_path().segments@ == self.spec_path().segments@ + ids@,
    {
        let PathBuilder { callback, mut path } = self;
        let mut ids = ids;
        path.segments.append(&mut ids);
        PathBuilder { callback, path }
    }

    /// Hands the finished path to the receiver.
    pub fn build(self) -> (r: F::Result)
        requires
            self.spec_callback().accepts(self.spec_path()),
        ensures
            self.spec_callback().delivers(self.spec_path(), r),
    {
        self.callback.invoke(self.path)
    }
}

} // verus!

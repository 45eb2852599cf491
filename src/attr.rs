//! A builder for attributes.
use vstd::prelude::*;
use crate::ast::{Attribute, Ident, MetaItem};
use crate::invoke::{Identity, Invoke};

verus! {

/// Builds one attribute, then hands it to `F`.
pub struct AttrBuilder<F> {
    callback: F,
}

impl AttrBuilder<Identity> {
    pub fn new() -> (r: Self)
        ensures
            r.spec_callback() == Identity,
    {
        AttrBuilder::new_with_callback(Identity)
    }
}

impl<F: Invoke<Attribute>> AttrBuilder<F> {
    /// The receiver of the finished attribute.
    pub closed spec fn spec_callback(&self) -> F {
        self.callback
    }

    pub fn new_with_callback(callback: F) -> (r: Self)
        ensures
            r.spec_callback() == callback,
    {
        AttrBuilder { callback }
    }

    /// Hands an already built attribute to the receiver.
    pub fn build(self, attr: Attribute) -> (r: F::Result)
        requires
            self.spec_callback().accepts(attr),
        ensures
            self.spec_callback().delivers(attr, r),
    {
        self.callback.invoke(attr)
    }

    /// The attribute `#[name]`.
    pub fn word(self, name: Ident) -> (r: F::Result)
        requires
            self.spec_callback().accepts((Attribute { value: MetaItem::Word(name) })),
        ensures
            self.spec_callback().delivers((Attribute { value: MetaItem::Word(name) }), r),
    {
        self.build(Attribute { value: MetaItem::Word(name) })
    }

    /// The attribute `#[name = "value"]`.
    pub fn name_value(self, name: Ident, value: String) -> (r: F::Result)
        requires
            self.spec_callback().accepts((Attribute { value: MetaItem::NameValue(name, value) })),
        ensures
            self.spec_callback().delivers((Attribute { value: MetaItem::NameValue(name, value) }), r),
    {
        self.build(Attribute { value: MetaItem::NameValue(name, value) })
    }
}

} // verus!

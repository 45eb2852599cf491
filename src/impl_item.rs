//! Builders for the items of an impl block.
use vstd::prelude::*;
use crate::ast::{
    Attribute, Expr, Ident, ImplItem, ImplItemKind, Mac, Span, Ty, Visibility, DUMMY_NODE_ID,
};
use crate::attr::AttrBuilder;
use crate::expr::ExprBuilder;
use crate::invoke::{Identity, Invoke};
use crate::mac::MacBuilder;
use crate::ty::TyBuilder;

verus! {

/// Builds one item of an impl block. The item's name is fixed when the
/// builder is made; visibility, attributes and span may be configured; the
/// item is finished once what it defines (a constant, a type or a macro
/// invocation) has been built.
pub struct ImplItemBuilder<F> {
    callback: F,
    ident: Ident,
    vis: Visibility,
    attrs: Vec<Attribute>,
    span: Span,
}

impl<F: Invoke<ImplItem>> ImplItemBuilder<F> {
    /// The receiver of the finished item.
    pub closed spec fn spec_callback(&self) -> F {
        self.callback
    }

    pub closed spec fn spec_ident(&self) -> Ident {
        self.ident
    }

    pub closed spec fn spec_vis(&self) -> Visibility {
        self.vis
    }

    /// The attributes added so far, in order.
    pub closed spec fn spec_attrs(&self) -> Vec<Attribute> {
        self.attrs
    }

    pub closed spec fn spec_span(&self) -> Span {
        self.span
    }

    /// The item this builder makes once it defines `node`.
    pub open spec fn assemble(&self, node: ImplItemKind) -> ImplItem {
        ImplItem {
            id: DUMMY_NODE_ID,
            ident: self.spec_ident(),
            vis: self.spec_vis(),
            attrs: self.spec_attrs(),
            node,
            span: self.spec_span(),
        }
    }

    /// `r` is this builder with one more attribute, `attr`.
    pub open spec fn with_attr_result(&self, attr: Attribute, r: Self) -> bool {
        &&& r.spec_callback() == self.spec_callback()
        &&& r.spec_ident() == self.spec_ident()
        &&& r.spec_vis() == self.spec_vis()
        &&& r.spec_attrs()@ == self.spec_attrs()@.push(attr)
        &&& r.spec_span() == self.spec_span()
    }

    /// A builder for the item named `ident`: inherited visibility, no
    /// attributes and no known location.
    pub fn new_with_callback(callback: F, ident: Ident) -> (r: Self)
        ensures
            r.spec_callback() == callback,
            r.spec_ident() == ident,
            r.spec_vis() == Visibility::Inherited,
            r.spec_attrs()@ == Seq::<Attribute>::empty(),
            r.spec_span().is_dummy(),
    {
        ImplItemBuilder {
            callback,
            ident,
            vis: Visibility::Inherited,
            attrs: Vec::new(),
            span: Span::dummy(),
        }
    }

    pub fn span(self, span: Span) -> (r: Self)
        ensures
            r.spec_callback() == self.spec_callback(),
            r.spec_ident() == self.spec_ident(),
            r.spec_vis() == self.spec_vis(),
            r.spec_attrs() == self.spec_attrs(),
            r.spec_span() == span,
    {
        let ImplItemBuilder { callback, ident, vis, attrs, span: _ } = self;
        ImplItemBuilder { callback, ident, vis, attrs, span }
    }

    /// Adds `attr` after the attributes already there.
    pub fn with_attr(self, attr: Attribute) -> (r: Self)
        ensures
            self.with_attr_result(attr, r),
    {
        let ImplItemBuilder { callback, ident, vis, mut attrs, span } = self;
        attrs.push(attr);
        ImplItemBuilder { callback, ident, vis, attrs, span }
    }

    /// Starts an attribute that is added to the item once it is finished.
    pub fn attr(self) -> (r: AttrBuilder<Self>)
        ensures
            r.spec_callback() == self,
    {
        AttrBuilder::new_with_callback(self)
    }

    /// Makes the item public.
    pub fn pub_(self) -> (r: Self)
        ensures
            r.spec_callback() == self.spec_callback(),
            r.spec_ident() == self.spec_ident(),
            r.spec_vis() == Visibility::Public,
            r.spec_attrs() == self.spec_attrs(),
            r.spec_span() == self.spec_span(),
    {
        let ImplItemBuilder { callback, ident, vis: _, attrs, span } = self;
        ImplItemBuilder { callback, ident, vis: Visibility::Public, attrs, span }
    }

    /// Makes the item an associated constant: first its type, then its
    /// initializer.
    pub fn const_(self) -> (r: TyBuilder<ConstBuilder<Self>>)
        ensures
            r.spec_callback().spec_callback() == self,
    {
        ConstBuilder::new_with_callback(self)
    }

    /// Makes the item an associated type.
    pub fn ty(self) -> (r: TyBuilder<Self>)
        ensures
            r.spec_callback() == self,
    {
        TyBuilder::new_with_callback(self)
    }

    /// Makes the item a macro invocation.
    pub fn mac(self) -> (r: MacBuilder<Self>)
        ensures
            r.spec_callback() == self,
            r.spec_span().is_dummy(),
            r.spec_tokens()@ == Seq::<crate::ast::TokenTree>::empty(),
            r.spec_path() is None,
    {
        MacBuilder::new_with_callback(self)
    }

    fn build_impl_item(self, node: ImplItemKind) -> (r: F::Result)
        requires
            self.spec_callback().accepts(self.assemble(node)),
        ensures
            self.spec_callback().delivers(self.assemble(node), r),
    {
        let ImplItemBuilder { callback, ident, vis, attrs, span } = self;
        callback.invoke(ImplItem { id: DUMMY_NODE_ID, ident, vis, attrs, node, span })
    }
}

impl<F: Invoke<ImplItem>> Invoke<Attribute> for ImplItemBuilder<F> {
    type Result = Self;

    open spec fn accepts(&self, attr: Attribute) -> bool {
        true
    }

    open spec fn delivers(&self, attr: Attribute, r: Self) -> bool {
        self.with_attr_result(attr, r)
    }

    fn invoke(self, attr: Attribute) -> (r: Self) {
        self.with_attr(attr)
    }
}

impl<F: Invoke<ImplItem>> Invoke<Ty> for ImplItemBuilder<F> {
    type Result = F::Result;

    open spec fn accepts(&self, ty: Ty) -> bool {
        self.spec_callback().accepts(self.assemble(ImplItemKind::Type(ty)))
    }

    open spec fn delivers(&self, ty: Ty, r: F::Result) -> bool {
        self.spec_callback().delivers(self.assemble(ImplItemKind::Type(ty)), r)
    }

    fn invoke(self, ty: Ty) -> (r: F::Result) {
        self.build_impl_item(ImplItemKind::Type(ty))
    }
}

impl<F: Invoke<ImplItem>> Invoke<Mac> for ImplItemBuilder<F> {
    type Result = F::Result;

    open spec fn accepts(&self, mac: Mac) -> bool {
        self.spec_callback().accepts(self.assemble(ImplItemKind::Macro(mac)))
    }

    open spec fn delivers(&self, mac: Mac, r: F::Result) -> bool {
        self.spec_callback().delivers(self.assemble(ImplItemKind::Macro(mac)), r)
    }

    fn invoke(self, mac: Mac) -> (r: F::Result) {
        self.build_impl_item(ImplItemKind::Macro(mac))
    }
}

impl<F: Invoke<ImplItem>> Invoke<ImplItemKind> for ImplItemBuilder<F> {
    type Result = F::Result;

    open spec fn accepts(&self, node: ImplItemKind) -> bool {
        self.spec_callback().accepts(self.assemble(node))
    }

    open spec fn delivers(&self, node: ImplItemKind, r: F::Result) -> bool {
        self.spec_callback().delivers(self.assemble(node), r)
    }

    fn invoke(self, node: ImplItemKind) -> (r: F::Result) {
        self.build_impl_item(node)
    }
}

/// The first stage of an associated constant: it waits for the type.
pub struct ConstBuilder<F> {
    builder: F,
}

impl<F: Invoke<ImplItemKind>> ConstBuilder<F> {
    /// The receiver of the finished constant.
    pub closed spec fn spec_callback(&self) -> F {
        self.builder
    }

    /// Starts the constant's type; completing it leads to the initializer.
    pub fn new_with_callback(callback: F) -> (r: TyBuilder<Self>)
        ensures
            r.spec_callback().spec_callback() == callback,
    {
        TyBuilder::new_with_callback(ConstBuilder { builder: callback })
    }

    /// Takes the constant's type; what is left is its initializer.
    pub fn build_ty(self, ty: Ty) -> (r: ConstExprBuilder<F>)
        ensures
            r.spec_callback() == self.spec_callback(),
            r.spec_ty() == ty,
    {
        ConstExprBuilder::new_with_callback(self.builder, ty)
    }
}

impl<F: Invoke<ImplItemKind>> Invoke<Ty> for ConstBuilder<F> {
    type Result = ConstExprBuilder<F>;

    open spec fn accepts(&self, ty: Ty) -> bool {
        true
    }

    open spec fn delivers(&self, ty: Ty, r: ConstExprBuilder<F>) -> bool {
        r.spec_callback() == self.spec_callback() && r.spec_ty() == ty
    }

    fn invoke(self, ty: Ty) -> (r: ConstExprBuilder<F>) {
        self.build_ty(ty)
    }
}

/// The second stage of an associated constant: its type is known and it
/// waits for the initializer.
pub struct ConstExprBuilder<F> {
    builder: F,
    ty: Ty,
}

impl<F: Invoke<ImplItemKind>> ConstExprBuilder<F> {
    /// The receiver of the finished constant.
    pub closed spec fn spec_callback(&self) -> F {
        self.builder
    }

    /// The constant's type.
    pub closed spec fn spec_ty(&self) -> Ty {
        self.ty
    }

    pub fn new_with_callback(callback: F, ty: Ty) -> (r: Self)
        ensures
            r.spec_callback() == callback,
            r.spec_ty() == ty,
    {
        ConstExprBuilder { builder: callback, ty }
    }

    /// Replaces the constant's type.
    pub fn ty(self, ty: Ty) -> (r: Self)
        ensures
            r.spec_callback() == self.spec_callback(),
            r.spec_ty() == ty,
    {
        ConstExprBuilder { builder: self.builder, ty }
    }

    /// Starts the initializer; completing it finishes the constant.
    pub fn expr(self) -> (r: ExprBuilder<Self>)
        ensures
            r.spec_callback() == self,
    {
        ExprBuilder::new_with_callback(self)
    }

    /// Takes the initializer and hands the constant to the receiver.
    pub fn build_expr(self, expr: Expr) -> (r: F::Result)
        requires
            self.spec_callback().accepts(ImplItemKind::Const(self.spec_ty(), expr)),
        ensures
            self.spec_callback().delivers(ImplItemKind::Const(self.spec_ty(), expr), r),
    {
        self.builder.invoke(ImplItemKind::Const(self.ty, expr))
    }
}

impl<F: Invoke<ImplItemKind>> Invoke<Expr> for ConstExprBuilder<F> {
    type Result = F::Result;

    open spec fn accepts(&self, expr: Expr) -> bool {
        self.spec_callback().accepts(ImplItemKind::Const(self.spec_ty(), expr))
    }

    open spec fn delivers(&self, expr: Expr, r: F::Result) -> bool {
        self.spec_callback().delivers(ImplItemKind::Const(self.spec_ty(), expr), r)
    }

    fn invoke(self, expr: Expr) -> (r: F::Result) {
        self.build_expr(expr)
    }
}

/// A constant is made of exactly the type supplied first and the
/// initializer supplied second: the first stage, given `ty`, yields a stage
/// that, given `expr`, hands `Const(ty, expr)` to the receiver the first stage was given.
pub proof fn lemma_const_staged<F: Invoke<ImplItemKind>>(
    first: ConstBuilder<F>,
    ty: Ty,
    second: ConstExprBuilder<F>,
    expr: Expr,
    r: F::Result,
)
    requires
        first.delivers(ty, second),
        second.delivers(expr, r),
    ensures
        first.spec_callback().delivers(ImplItemKind::Const(ty, expr), r),
{
}

/// An item whose builder was never made public nor given an attribute has
/// inherited visibility and no attributes, whatever it defines.
pub proof fn lemma_default_visibility(
    b: ImplItemBuilder<Identity>,
    node: ImplItemKind,
    item: ImplItem,
)
    requires
        b.spec_vis() == Visibility::Inherited,
        b.spec_attrs()@ == Seq::<Attribute>::empty(),
        b.delivers(node, item),
    ensures
        item.vis == Visibility::Inherited,
        item.attrs@ == Seq::<Attribute>::empty(),
        item.node == node,
{
}

/// Finishing the type builder that `ty()` started hands control back to the
/// item builder, which delivers the finished item to its own receiver.
pub proof fn lemma_nested_delivery<F: Invoke<ImplItem>>(
    b: ImplItemBuilder<F>,
    nested: TyBuilder<ImplItemBuilder<F>>,
    ty: Ty,
    r: F::Result,
)
    requires
        nested.spec_callback() == b,
        nested.spec_callback().delivers(ty, r),
    ensures
        b.spec_callback().delivers(b.assemble(ImplItemKind::Type(ty)), r),
{
}

} // verus!

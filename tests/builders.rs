use aster::ast::{
    Attribute, Expr, Ident, ImplItem, ImplItemKind, Mac, MetaItem, Path, Span, TokenTree,
    TraitRef, Ty, Visibility, DUMMY_NODE_ID,
};
use aster::attr::AttrBuilder;
use aster::expr::ExprBuilder;
use aster::impl_item::{ConstBuilder, ConstExprBuilder, ImplItemBuilder};
use aster::invoke::{Identity, Invoke};
use aster::mac::MacBuilder;
use aster::path::PathBuilder;
use aster::tokens::ToTokens;
use aster::trait_ref::TraitRefBuilder;
use aster::ty::TyBuilder;

fn id(s: &str) -> Ident {
    Ident::new(s)
}

fn path1(s: &str) -> Path {
    Path { global: false, segments: vec![id(s)] }
}

fn dummy() -> Span {
    Span { lo: 0, hi: 0 }
}

/// Counts how many values reached it.
struct Counter {
    seen: u32,
}

impl Invoke<ImplItem> for Counter {
    type Result = (ImplItem, u32);

    fn invoke(self, item: ImplItem) -> (ImplItem, u32) {
        (item, self.seen + 1)
    }
}

#[test]
fn mac_path_and_two_args() {
    let mac = MacBuilder::new()
        .path(path1("foo"))
        .with_args(vec![Expr::Path(path1("a")), Expr::Path(path1("b"))])
        .build();
    assert_eq!(
        mac,
        Mac {
            path: path1("foo"),
            tts: vec![TokenTree::Ident(id("a")), TokenTree::Ident(id("b"))],
            ctxt: 0,
            span: dummy(),
        }
    );
}

#[test]
fn mac_args_keep_order_without_separators() {
    let mac = MacBuilder::new()
        .span(Span { lo: 3, hi: 9 })
        .with_arg(Expr::Lit(1))
        .with_arg(TokenTree::Comma)
        .with_args(vec![Expr::Lit(2), Expr::Lit(3), Expr::Lit(4)])
        .with_arg(id("x"))
        .path(path1("m"))
        .build();
    assert_eq!(
        mac.tts,
        vec![
            TokenTree::Lit(1),
            TokenTree::Comma,
            TokenTree::Lit(2),
            TokenTree::Lit(3),
            TokenTree::Lit(4),
            TokenTree::Ident(id("x")),
        ]
    );
    assert_eq!(mac.span, Span { lo: 3, hi: 9 });
}

#[test]
fn mac_with_no_args() {
    let mac = MacBuilder::new().path(path1("m")).with_args(Vec::<Expr>::new()).build();
    assert_eq!(mac.tts, Vec::<TokenTree>::new());
    assert_eq!(mac.path, path1("m"));
}

#[test]
fn mac_args_through_expr_builder() {
    let mac = MacBuilder::new()
        .expr().lit(7)
        .expr().path().id(id("y")).build()
        .path(path1("m"))
        .build();
    assert_eq!(mac.tts, vec![TokenTree::Lit(7), TokenTree::Ident(id("y"))]);
}

#[test]
fn path_tokens_separated_by_mod_sep() {
    let p = PathBuilder::new().global().ids(vec![id("a"), id("b")]).id(id("c")).build();
    assert_eq!(
        p.to_tokens(),
        vec![
            TokenTree::ModSep,
            TokenTree::Ident(id("a")),
            TokenTree::ModSep,
            TokenTree::Ident(id("b")),
            TokenTree::ModSep,
            TokenTree::Ident(id("c")),
        ]
    );
    let q = PathBuilder::new().id(id("a")).id(id("b")).build();
    assert_eq!(
        Expr::Path(q).to_tokens(),
        vec![TokenTree::Ident(id("a")), TokenTree::ModSep, TokenTree::Ident(id("b"))]
    );
    assert_eq!(PathBuilder::new().build().to_tokens(), Vec::<TokenTree>::new());
    assert_eq!(Expr::Lit(5).to_tokens(), vec![TokenTree::Lit(5)]);
}

#[test]
fn const_item_has_type_then_initializer() {
    let item = ImplItemBuilder::new_with_callback(Identity, id("N"))
        .const_()
        .path().id(id("usize")).build()
        .expr().lit(8);
    assert_eq!(
        item,
        ImplItem {
            id: DUMMY_NODE_ID,
            ident: id("N"),
            vis: Visibility::Inherited,
            attrs: vec![],
            node: ImplItemKind::Const(Ty::Path(path1("usize")), Expr::Lit(8)),
            span: dummy(),
        }
    );
}

#[test]
fn const_stages_used_directly() {
    let second: ConstExprBuilder<Identity> = ConstBuilder::new_with_callback(Identity).unit();
    let kind = second.ty(Ty::Infer).build_expr(Expr::Lit(1));
    assert_eq!(kind, ImplItemKind::Const(Ty::Infer, Expr::Lit(1)));
    let kind = ConstBuilder::new_with_callback(Identity)
        .build(Ty::Unit)
        .expr()
        .path().id(id("X")).build();
    assert_eq!(kind, ImplItemKind::Const(Ty::Unit, Expr::Path(path1("X"))));
}

#[test]
fn item_defaults_to_inherited_and_no_attrs() {
    let item = ImplItemBuilder::new_with_callback(Identity, id("T"))
        .span(Span { lo: 1, hi: 2 })
        .ty().infer();
    assert_eq!(item.vis, Visibility::Inherited);
    assert_eq!(item.attrs, Vec::<Attribute>::new());
    assert_eq!(item.node, ImplItemKind::Type(Ty::Infer));
    assert_eq!(item.span, Span { lo: 1, hi: 2 });
}

#[test]
fn item_public_with_attrs_in_order() {
    let item = ImplItemBuilder::new_with_callback(Identity, id("T"))
        .pub_()
        .attr().word(id("inline"))
        .with_attr(Attribute { value: MetaItem::Word(id("cold")) })
        .attr().name_value(id("doc"), "x".to_string())
        .ty().unit();
    assert_eq!(item.vis, Visibility::Public);
    assert_eq!(
        item.attrs,
        vec![
            Attribute { value: MetaItem::Word(id("inline")) },
            Attribute { value: MetaItem::Word(id("cold")) },
            Attribute { value: MetaItem::NameValue(id("doc"), "x".to_string()) },
        ]
    );
    assert_eq!(item.node, ImplItemKind::Type(Ty::Unit));
}

#[test]
fn item_from_macro() {
    let item = ImplItemBuilder::new_with_callback(Identity, id("m"))
        .mac()
        .path(path1("gen"))
        .with_arg(id("a"))
        .build();
    assert_eq!(
        item.node,
        ImplItemKind::Macro(Mac {
            path: path1("gen"),
            tts: vec![TokenTree::Ident(id("a"))],
            ctxt: 0,
            span: dummy(),
        })
    );
}

#[test]
fn nested_item_delivered_once() {
    let (item, seen) = ImplItemBuilder::new_with_callback(Counter { seen: 0 }, id("T"))
        .ty()
        .path().id(id("u8")).build();
    assert_eq!(seen, 1);
    assert_eq!(item.node, ImplItemKind::Type(Ty::Path(path1("u8"))));
}

#[test]
fn trait_ref_from_path() {
    let tr = TraitRefBuilder::new_with_callback(Identity).id(id("std")).id(id("Clone")).build();
    assert_eq!(
        tr,
        TraitRef {
            path: Path { global: false, segments: vec![id("std"), id("Clone")] },
            ref_id: DUMMY_NODE_ID,
        }
    );
    let tr = TraitRefBuilder::new_with_callback(Identity).global().id(id("Eq")).build();
    assert_eq!(tr.path, Path { global: true, segments: vec![id("Eq")] });
    assert_eq!(tr.ref_id, DUMMY_NODE_ID);
}

#[test]
fn leaf_builders_hand_back_values() {
    assert_eq!(TyBuilder::new().unit(), Ty::Unit);
    assert_eq!(TyBuilder::new().path().id(id("T")).build(), Ty::Path(path1("T")));
    assert_eq!(ExprBuilder::new().lit(0), Expr::Lit(0));
    assert_eq!(
        AttrBuilder::new().word(id("test")),
        Attribute { value: MetaItem::Word(id("test")) }
    );
    assert_eq!(Ident::new("abc").name, "abc".to_string());
    assert_eq!(Span::dummy(), dummy());
}

#[test]
fn stages_as_receivers() {
    let first: ConstExprBuilder<Identity> = ConstBuilder::new_with_callback(Identity).unit();
    let kind = first.invoke(Expr::Lit(2));
    assert_eq!(kind, ImplItemKind::Const(Ty::Unit, Expr::Lit(2)));
    let item = ImplItemBuilder::new_with_callback(Identity, id("K"))
        .invoke(ImplItemKind::Type(Ty::Unit));
    assert_eq!(item.node, ImplItemKind::Type(Ty::Unit));
    assert_eq!(item.ident, id("K"));
    let builder = ImplItemBuilder::new_with_callback(Identity, id("K"))
        .invoke(Attribute { value: MetaItem::Word(id("a")) });
    let item = builder.ty().unit();
    assert_eq!(item.attrs, vec![Attribute { value: MetaItem::Word(id("a")) }]);
}

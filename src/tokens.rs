//! Turning values into the flat token sequence of a macro invocation.
use vstd::prelude::*;
use crate::ast::{Expr, Ident, Path, TokenTree};

verus! {

/// The tokens of a run of path segments, joined by `::`.
pub open spec fn segment_tokens(segs: Seq<Ident>) -> Seq<TokenTree>
    decreases segs.len(),
{
    if segs.len() == 0 {
        seq![]
    } else if segs.len() == 1 {
        seq![TokenTree::Ident(segs[0])]
    } else {
        segment_tokens(segs.drop_last()).push(TokenTree::ModSep).push(TokenTree::Ident(segs.last()))
    }
}

/// The tokens of a path: a leading `::` when global, then its segments.
pub open spec fn path_tokens(p: Path) -> Seq<TokenTree> {
    if p.global {
        seq![TokenTree::ModSep] + segment_tokens(p.segments@)
    } else {
        segment_tokens(p.segments@)
    }
}

/// A value that can be written as tokens.
pub trait ToTokens: Sized {
    /// The tokens that stand for this value.
    spec fn tokens(&self) -> Seq<TokenTree>;

    fn to_tokens(self) -> (r: Vec<TokenTree>)
        ensures
            r@ == self.tokens(),
    ;
}

impl ToTokens for TokenTree {
    open spec fn tokens(&self) -> Seq<TokenTree> {
        seq![*self]
    }

    fn to_tokens(self) -> (r: Vec<TokenTree>) {
        let mut r: Vec<TokenTree> = Vec::new();
        r.push(self);
        proof {
            assert(r@ =~= seq![self]);
            assert(self.tokens() == seq![self]);
        }
        r
    }
}

impl ToTokens for Ident {
    open spec fn tokens(&self) -> Seq<TokenTree> {
        seq![TokenTree::Ident(*self)]
    }

    fn to_tokens(self) -> (r: Vec<TokenTree>) {
        TokenTree::Ident(self).to_tokens()
    }
}

impl ToTokens for Path {
    open spec fn tokens(&self) -> Seq<TokenTree> {
        path_tokens(*self)
    }

    fn to_tokens(self) -> (r: Vec<TokenTree>) {
        let ghost me = self;
        let ghost segs = self.segments@;
        let global = self.global;
        let mut rest = self.segments;
        let mut r: Vec<TokenTree> = Vec::new();
        if global {
            r.push(TokenTree::ModSep);
        }
        let ghost lead: Seq<TokenTree> = r@;
        let total: usize = rest.len();
        let mut done: usize = 0;
        proof {
            assert(segs.subrange(0, 0) =~= Seq::<Ident>::empty());
            assert(r@ =~= lead + segment_tokens(segs.subrange(0, 0)));
        }
        while rest.len() > 0
            invariant
                total == segs.len(),
                done + rest@.len() == segs.len(),
                rest@ == segs.subrange(done as int, segs.len() as int),
                r@ == lead + segment_tokens(segs.subrange(0, done as int)),
            decreases rest@.len(),
        {
            let seg = rest.remove(0);
            proof {
                let prev = segs.subrange(0, done as int);
                let next = segs.subrange(0, done as int + 1);
                assert(next.drop_last() =~= prev);
                assert(seg == segs[done as int]);
            }
            if done > 0 {
                r.push(TokenTree::ModSep);
            }
            r.push(TokenTree::Ident(seg));
            done = done + 1;
            proof {
                let next = segs.subrange(0, done as int);
                assert(rest@ =~= segs.subrange(done as int, segs.len() as int));
                assert(r@ =~= lead + segment_tokens(next));
            }
        }
        proof {
            assert(segs.subrange(0, done as int) =~= segs);
            assert(lead == (if me.global { seq![TokenTree::ModSep] } else { Seq::<TokenTree>::empty() }));
            assert(r@ =~= path_tokens(me));
            assert(me.tokens() == path_tokens(me));
        }
        r
    }
}

impl ToTokens for Expr {
    open spec fn tokens(&self) -> Seq<TokenTree> {
        match *self {
            Expr::Lit(n) => seq![TokenTree::Lit(n)],
            Expr::Path(p) => path_tokens(p),
        }
    }

    fn to_tokens(self) -> (r: Vec<TokenTree>) {
        match self {
            Expr::Lit(n) => TokenTree::Lit(n).to_tokens(),
            Expr::Path(p) => p.to_tokens(),
        }
    }
}

} // verus!

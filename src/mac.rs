//! A builder for macro invocations.
use vstd::prelude::*;
use crate::ast::{Expr, Mac, Path, Span, TokenTree};
use crate::expr::ExprBuilder;
use crate::invoke::{Identity, Invoke};
use crate::tokens::ToTokens;

verus! {

/// Whether `arg` is written as exactly one token.
pub open spec fn single_token<T: ToTokens>(arg: T) -> bool {
    arg.tokens().len() == 1
}

/// The one token that stands for `arg`.
pub open spec fn token_of<T: ToTokens>(arg: T) -> TokenTree {
    arg.tokens()[0]
}

/// Builds a macro invocation from a path and an argument token sequence.
///
/// No separators are put between the arguments: a caller that wants
/// `a, b` appends the comma token itself.
pub struct MacBuilder<F = Identity> {
    callback: F,
    span: Span,
    tokens: Vec<TokenTree>,
    path: Option<Path>,
}

impl MacBuilder<Identity> {
    pub fn new() -> (r: Self)
        ensures
            r.spec_callback() == Identity,
            r.spec_span().is_dummy(),
            r.spec_tokens()@ == Seq::<TokenTree>::empty(),
            r.spec_path() is None,
    {
        MacBuilder::new_with_callback(Identity)
    }
}

impl<F: Invoke<Mac>> MacBuilder<F> {
    /// The receiver of the finished invocation.
    pub closed spec fn spec_callback(&self) -> F {
        self.callback
    }

    pub closed spec fn spec_span(&self) -> Span {
        self.span
    }

    /// The argument tokens appended so far.
    pub closed spec fn spec_tokens(&self) -> Vec<TokenTree> {
        self.tokens
    }

    /// The macro's path, once one has been set.
    pub closed spec fn spec_path(&self) -> Option<Path> {
        self.path
    }

    /// The invocation this builder makes; needs a path.
    pub open spec fn assemble(&self) -> Mac {
        Mac {
            path: self.spec_path()->Some_0,
            tts: self.spec_tokens(),
            ctxt: 0,
            span: self.spec_span(),
        }
    }

    /// The same builder with `tokens` for its argument tokens.
    pub open spec fn same_but_tokens(&self, r: Self, tokens: Seq<TokenTree>) -> bool {
        &&& r.spec_callback() == self.spec_callback()
        &&& r.spec_span() == self.spec_span()
        &&& r.spec_path() == self.spec_path()
        &&& r.spec_tokens()@ == tokens
    }

    pub fn new_with_callback(callback: F) -> (r: Self)
        ensures
            r.spec_callback() == callback,
            r.spec_span().is_dummy(),
            r.spec_tokens()@ == Seq::<TokenTree>::empty(),
            r.spec_path() is None,
    {
        MacBuilder { callback, span: Span::dummy(), tokens: Vec::new(), path: None }
    }

    pub fn span(self, span: Span) -> (r: Self)
        ensures
            r.spec_callback() == self.spec_callback(),
            r.spec_span() == span,
            r.spec_tokens() == self.spec_tokens(),
            r.spec_path() == self.spec_path(),
    {
        let MacBuilder { callback, span: _, tokens, path } = self;
        MacBuilder { callback, span, tokens, path }
    }

    /// Sets the path of the macro to invoke.
    pub fn path(self, path: Path) -> (r: Self)
        ensures
            r.spec_callback() == self.spec_callback(),
            r.spec_span() == self.spec_span(),
            r.spec_tokens() == self.spec_tokens(),
            r.spec_path() == Some(path),
    {
        let MacBuilder { callback, span, tokens, path: _ } = self;
        MacBuilder { callback, span, tokens, path: Some(path) }
    }

    /// Hands the invocation to the receiver; a path must have been set.
    pub fn build(self) -> (r: F::Result)
        requires
            self.spec_path() is Some,
            self.spec_callback().accepts(self.assemble()),
        ensures
            self.spec_callback().delivers(self.assemble(), r),
    {
        let MacBuilder { callback, span, tokens, path } = self;
        match path {
            Some(path) => callback.invoke(Mac { path, tts: tokens, ctxt: 0, span }),
            None => vstd::pervasive::unreached(),
        }
    }
    /// Appends the one token that stands for `arg`.
    pub fn with_arg<T: ToTokens>(self, arg: T) -> (r: Self)
        requires
            single_token(arg),
        ensures
            self.same_but_tokens(r, self.spec_tokens()@.push(token_of(arg))),
    {
        let MacBuilder { callback, span, mut tokens, path } = self;
        let mut arg_tokens = arg.to_tokens();
        match arg_tokens.pop() {
            Some(t) => tokens.push(t),
            None => vstd::pervasive::unreached(),
        }
        MacBuilder { callback, span, tokens, path }
    }

    /// Appends the token of each of `args`, in order.
    pub fn with_args<T: ToTokens>(self, args: Vec<T>) -> (r: Self)
        requires
            forall|i: int| 0 <= i < args@.len() ==> single_token(#[trigger] args@[i]),
        ensures
            self.same_but_tokens(
                r,
                self.spec_tokens()@ + args@.map_values(|a: T| token_of(a)),
            ),
    {
        let ghost all = args@;
        let total: usize = args.len();
        let mut rest = args;
        let mut b = self;
        let mut done: usize = 0;
        proof {
            assert(all.subrange(0, 0).map_values(|a: T| token_of(a)) =~= Seq::<TokenTree>::empty());
            assert(self.spec_tokens()@ =~= self.spec_tokens()@ + Seq::<TokenTree>::empty());
        }
        while rest.len() > 0
            invariant
                total == all.len(),
                done + rest@.len() == all.len(),
                rest@ == all.subrange(done as int, all.len() as int),
                forall|i: int| 0 <= i < all.len() ==> single_token(#[trigger] all[i]),
                self.same_but_tokens(
                    b,
                    self.spec_tokens()@ + all.subrange(0, done as int).map_values(|a: T| token_of(a)),
                ),
            decreases rest@.len(),
        {
            let arg = rest.remove(0);
            proof {
                assert(arg == all[done as int]);
            }
            b = b.with_arg(arg);
            proof {
                let prev = all.subrange(0, done as int).map_values(|a: T| token_of(a));
                let next = all.subrange(0, done as int + 1).map_values(|a: T| token_of(a));
                assert(next =~= prev.push(token_of(arg)));
                assert(self.spec_tokens()@ + next =~= (self.spec_tokens()@ + prev).push(token_of(arg)));
            }
            done = done + 1;
            proof {
                assert(rest@ =~= all.subrange(done as int, all.len() as int));
            }
        }
        proof {
            assert(all.subrange(0, done as int) =~= all);
        }
        b
    }

    /// Starts an expression whose token is appended once it is finished.
    pub fn expr(self) -> (r: ExprBuilder<Self>)
        ensures
            r.spec_callback() == self,
    {
        ExprBuilder::new_with_callback(self)
    }
}

impl<F: Invoke<Mac>> Invoke<Expr> for MacBuilder<F> {
    type Result = Self;

    open spec fn accepts(&self, expr: Expr) -> bool {
        single_token(expr)
    }

    open spec fn delivers(&self, expr: Expr, r: Self) -> bool {
        self.same_but_tokens(r, self.spec_tokens()@.push(token_of(expr)))
    }

    fn invoke(self, expr: Expr) -> (r: Self) {
        self.with_arg(expr)
    }
}

} // verus!

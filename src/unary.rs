use vstd::prelude::*;

verus! {

/// A callable of one argument, described by what it accepts and what it may return.
///
/// Every `Fn(A) -> O` that can be cloned and sent to another thread is one.
pub trait Unary<A>: Sized {
    /// What the callable returns.
    type Output;

    /// Whether the callable may be invoked on `a`.
    spec fn accepts(&self, a: A) -> bool;

    /// Whether `o` is a possible result of invoking the callable on `a`.
    spec fn gives(&self, a: A, o: Self::Output) -> bool;

    /// Invokes the callable on `a`.
    fn apply(&self, a: A) -> (o: Self::Output)
        requires
            self.accepts(a),
        ensures
            self.gives(a, o),
    ;
}

impl<F, A, O> Unary<A> for F where F: Fn(A) -> O + Clone + Send {
    type Output = O;

    open spec fn accepts(&self, a: A) -> bool {
        call_requires(*self, (a,))
    }

    open spec fn gives(&self, a: A, o: O) -> bool {
        call_ensures(*self, (a,), o)
    }

    fn apply(&self, a: A) -> (o: O) {
        self(a)
    }
}

/// The callable returns at most one value for each input.
pub open spec fn is_functional<A, F: Unary<A>>(f: F) -> bool {
    forall|x: A, o1: F::Output, o2: F::Output| f.gives(x, o1) && f.gives(x, o2) ==> o1 == o2
}

/// Invoking `f` on `x` and then `g` on what came back is allowed, whatever `f` returns.
pub open spec fn chain_accepts<A, F: Unary<A>, G: Unary<F::Output>>(f: &F, g: &G, x: A) -> bool {
    &&& f.accepts(x)
    &&& forall|o: F::Output| f.gives(x, o) ==> g.accepts(o)
}

/// `c` is what `g` may return on some value that `f` may return on `x`.
pub open spec fn chain_gives<A, F: Unary<A>, G: Unary<F::Output>>(
    f: &F,
    g: &G,
    x: A,
    c: G::Output,
) -> bool {
    exists|o: F::Output| f.gives(x, o) && g.gives(o, c)
}

/// `r` behaves as `g` after `f`: it accepts every input on which `f` and then `g` may be
/// invoked, and each of its results is `g`'s result on `f`'s result.
pub open spec fn is_chain<A, C, R: Fn(A) -> C, F: Unary<A>, G: Unary<F::Output, Output = C>>(
    r: R,
    f: &F,
    g: &G,
) -> bool {
    &&& forall|x: A| #[trigger] chain_accepts(f, g, x) ==> call_requires(r, (x,))
    &&& forall|x: A, c: C| #[trigger] call_ensures(r, (x,), c) ==> chain_gives(f, g, x, c)
}

/// Composes `f` with `g`: the returned callable invokes `f` on its input, then `g` on
/// `f`'s result, and returns `g`'s result. Neither is invoked before the returned
/// callable is.
pub fn chain<A, F, G>(f: F, g: G) -> (r: impl Fn(A) -> G::Output + Clone)
    where
        F: Unary<A> + Clone + Send,
        G: Unary<F::Output> + Clone + Send,
    ensures
        is_chain(r, &f, &g),
{
    let r = move |a: A| -> (c: G::Output)
        requires
            chain_accepts(&f, &g, a),
        ensures
            chain_gives(&f, &g, a, c),
    {
        let o = f.apply(a);
        g.apply(o)
    };
    r
}

/// The callable `r` returns at most one value for each input.
pub open spec fn returns_one<A, C, R: Fn(A) -> C>(r: R) -> bool {
    forall|x: A, c1: C, c2: C| call_ensures(r, (x,), c1) && call_ensures(r, (x,), c2) ==> c1 == c2
}

/// The composition of `f` and `g` invoked on `x` returns `g(f(x))`: where `f` returns `o` on
/// `x`, `g` returns `c` on `o`, and each returns one value per input, the composed callable
/// may be invoked on `x` and returns `c`.
pub proof fn lemma_chain_applies<A, C, R, F, G>(r: R, f: F, g: G, x: A, o: F::Output, c: C)
    where
        R: Fn(A) -> C,
        F: Unary<A>,
        G: Unary<F::Output, Output = C>,
    requires
        is_chain(r, &f, &g),
        is_functional(f),
        is_functional(g),
        f.accepts(x),
        f.gives(x, o),
        g.accepts(o),
        g.gives(o, c),
    ensures
        call_requires(r, (x,)),
        forall|c2: C| call_ensures(r, (x,), c2) ==> c2 == c,
{
    assert(chain_accepts(&f, &g, x));
    assert forall|c2: C| call_ensures(r, (x,), c2) implies c2 == c by {
        assert(chain_gives(&f, &g, x, c2));
        let o2 = choose|o2: F::Output| f.gives(x, o2) && g.gives(o2, c2);
        assert(o2 == o);
    }
}

/// A composed callable keeps nothing from one invocation to the next: where `f` and `g`
/// return one value per input, so does the composition, whatever it was invoked on before.
pub proof fn lemma_chain_reusable<A, C, R, F, G>(r: R, f: F, g: G)
    where
        R: Fn(A) -> C,
        F: Unary<A>,
        G: Unary<F::Output, Output = C>,
    requires
        is_chain(r, &f, &g),
        is_functional(f),
        is_functional(g),
    ensures
        returns_one(r),
{
    assert forall|x: A, c1: C, c2: C|
        call_ensures(r, (x,), c1) && call_ensures(r, (x,), c2) implies c1 == c2 by {
        assert(chain_gives(&f, &g, x, c1));
        assert(chain_gives(&f, &g, x, c2));
        let o1 = choose|o: F::Output| f.gives(x, o) && g.gives(o, c1);
        let o2 = choose|o: F::Output| f.gives(x, o) && g.gives(o, c2);
        assert(o1 == o2);
    }
}

} // verus!

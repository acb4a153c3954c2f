use vstd::prelude::*;

use crate::unary::Unary;

verus! {

/// A callable of two arguments, described by what it accepts and what it may return.
///
/// Every `Fn(A, B) -> O` that can be cloned and sent to another thread is one.
pub trait Binary<A, B>: Sized {
    /// What the callable returns.
    type Output;

    /// Whether the callable may be invoked on `(a, b)`.
    spec fn accepts(&self, a: A, b: B) -> bool;

    /// Whether `o` is a possible result of invoking the callable on `(a, b)`.
    spec fn gives(&self, a: A, b: B, o: Self::Output) -> bool;

    /// Invokes the callable on `(a, b)`.
    fn apply(&self, a: A, b: B) -> (o: Self::Output)
        requires
            self.accepts(a, b),
        ensures
            self.gives(a, b, o),
    ;
}

impl<F, A, B, O> Binary<A, B> for F where F: Fn(A, B) -> O + Clone + Send {
    type Output = O;

    open spec fn accepts(&self, a: A, b: B) -> bool {
        call_requires(*self, (a, b))
    }

    open spec fn gives(&self, a: A, b: B, o: O) -> bool {
        call_ensures(*self, (a, b), o)
    }

    fn apply(&self, a: A, b: B) -> (o: O) {
        self(a, b)
    }
}

/// The callable returns at most one value for each pair of inputs.
pub open spec fn is_functional<A, B, F: Binary<A, B>>(f: F) -> bool {
    forall|x: A, y: B, o1: F::Output, o2: F::Output|
        f.gives(x, y, o1) && f.gives(x, y, o2) ==> o1 == o2
}

/// Every clone of `a` equals `a`.
pub open spec fn clones_equal<A: Clone>(a: A) -> bool {
    forall|a2: A| cloned(a, a2) ==> a2 == a
}

/// `f` may be invoked on `(a2, b)` for every clone `a2` of `a`.
pub open spec fn with_accepts<A: Clone, B, F: Binary<A, B>>(f: &F, a: &A, b: B) -> bool {
    forall|a2: A| cloned(*a, a2) ==> f.accepts(a2, b)
}

/// `o` is what `f` may return on `(a2, b)` for some clone `a2` of `a`.
pub open spec fn with_gives<A: Clone, B, F: Binary<A, B>>(
    f: &F,
    a: &A,
    b: B,
    o: F::Output,
) -> bool {
    exists|a2: A| cloned(*a, a2) && f.gives(a2, b, o)
}

/// `r` behaves as `f` with its first argument fixed to `a`: it accepts every `b` on which
/// `f` may be invoked with a clone of `a`, and each of its results is `f`'s result there.
pub open spec fn is_with<A: Clone, B, O, R: Fn(B) -> O, F: Binary<A, B, Output = O>>(
    r: R,
    f: &F,
    a: &A,
) -> bool {
    &&& forall|y: B| #[trigger] with_accepts(f, a, y) ==> call_requires(r, (y,))
    &&& forall|y: B, o: O| #[trigger] call_ensures(r, (y,), o) ==> with_gives(f, a, y, o)
}

/// Fixes the first argument of `f` to `a`: the returned callable takes the second
/// argument `b` and invokes `f` on a fresh clone of `a` and `b`. `a` itself is never
/// handed out, so every invocation sees the same value.
pub fn with<A, B, F>(f: F, a: A) -> (r: impl Fn(B) -> F::Output + Clone)
    where
        F: Binary<A, B> + Clone + Send,
        A: Clone + Send,
    ensures
        is_with(r, &f, &a),
{
    let r = move |b: B| -> (o: F::Output)
        requires
            with_accepts(&f, &a, b),
        ensures
            with_gives(&f, &a, b, o),
    {
        // `Option::cloned` is specified to hand back a clone of what it holds.
        let a2 = Some(&a).cloned().unwrap();
        f.apply(a2, b)
    };
    r
}

/// Invoking `f` on `(x, y)` and then `g` on what came back is allowed, whatever `f`
/// returns.
pub open spec fn chain_accepts<A, B, F: Binary<A, B>, G: Unary<F::Output>>(
    f: &F,
    g: &G,
    x: A,
    y: B,
) -> bool {
    &&& f.accepts(x, y)
    &&& forall|o: F::Output| f.gives(x, y, o) ==> g.accepts(o)
}

/// `c` is what `g` may return on some value that `f` may return on `(x, y)`.
pub open spec fn chain_gives<A, B, F: Binary<A, B>, G: Unary<F::Output>>(
    f: &F,
    g: &G,
    x: A,
    y: B,
    c: G::Output,
) -> bool {
    exists|o: F::Output| f.gives(x, y, o) && g.gives(o, c)
}

/// `r` behaves as `g` after `f`: it accepts every pair on which `f` and then `g` may be
/// invoked, and each of its results is `g`'s result on `f`'s result.
pub open spec fn is_chain<A, B, C, R: Fn(A, B) -> C, F: Binary<A, B>, G: Unary<
    F::Output,
    Output = C,
>>(r: R, f: &F, g: &G) -> bool {
    &&& forall|x: A, y: B| #[trigger] chain_accepts(f, g, x, y) ==> call_requires(r, (x, y))
    &&& forall|x: A, y: B, c: C| #[trigger]
        call_ensures(r, (x, y), c) ==> chain_gives(f, g, x, y, c)
}

/// Composes `f` with `g`: the returned callable invokes `f` on its two inputs, then `g` on
/// `f`'s result, and returns `g`'s result. Neither is invoked before the returned callable
/// is.
pub fn chain<A, B, F, G>(f: F, g: G) -> (r: impl Fn(A, B) -> G::Output + Clone)
    where
        F: Binary<A, B> + Clone + Send,
        G: Unary<F::Output> + Clone + Send,
    ensures
        is_chain(r, &f, &g),
{
    let r = move |a: A, b: B| -> (c: G::Output)
        requires
            chain_accepts(&f, &g, a, b),
        ensures
            chain_gives(&f, &g, a, b, c),
    {
        let o = f.apply(a, b);
        g.apply(o)
    };
    r
}

/// The callable `r` returns at most one value for each pair of inputs.
pub open spec fn returns_one<A, B, C, R: Fn(A, B) -> C>(r: R) -> bool {
    forall|x: A, y: B, c1: C, c2: C|
        call_ensures(r, (x, y), c1) && call_ensures(r, (x, y), c2) ==> c1 == c2
}

/// `f` with its first argument fixed to `a`, invoked on `b`, returns `f(a, b)`: where `f`
/// returns one value per pair, returns `o` on `(a, b)`, and every clone of `a` equals `a`,
/// the bound callable may be invoked on `b` and returns `o`.
pub proof fn lemma_with_applies<A, B, O, R, F>(r: R, f: F, a: A, b: B, o: O)
    where
        A: Clone,
        R: Fn(B) -> O,
        F: Binary<A, B, Output = O>,
    requires
        is_with(r, &f, &a),
        is_functional(f),
        clones_equal(a),
        f.accepts(a, b),
        f.gives(a, b, o),
    ensures
        call_requires(r, (b,)),
        forall|o2: O| call_ensures(r, (b,), o2) ==> o2 == o,
{
    assert(with_accepts(&f, &a, b));
    assert forall|o2: O| call_ensures(r, (b,), o2) implies o2 == o by {
        assert(with_gives(&f, &a, b, o2));
    }
}

/// A bound callable keeps nothing from one invocation to the next: where `f` returns one
/// value per pair and every clone of `a` equals `a`, the bound callable returns one value
/// per input, whatever it was invoked on before.
pub proof fn lemma_with_reusable<A, B, O, R, F>(r: R, f: F, a: A)
    where
        A: Clone,
        R: Fn(B) -> O,
        F: Binary<A, B, Output = O>,
    requires
        is_with(r, &f, &a),
        is_functional(f),
        clones_equal(a),
    ensures
        crate::unary::returns_one(r),
{
    assert forall|y: B, o1: O, o2: O|
        call_ensures(r, (y,), o1) && call_ensures(r, (y,), o2) implies o1 == o2 by {
        assert(with_gives(&f, &a, y, o1));
        assert(with_gives(&f, &a, y, o2));
    }
}

/// The composition of `f` and `g` invoked on `(x, y)` returns `g(f(x, y))`: where `f`
/// returns `o` on `(x, y)`, `g` returns `c` on `o`, and each returns one value per input,
/// the composed callable may be invoked on `(x, y)` and returns `c`.
pub proof fn lemma_chain_applies<A, B, C, R, F, G>(
    r: R,
    f: F,
    g: G,
    x: A,
    y: B,
    o: F::Output,
    c: C,
)
    where
        R: Fn(A, B) -> C,
        F: Binary<A, B>,
        G: Unary<F::Output, Output = C>,
    requires
        is_chain(r, &f, &g),
        is_functional(f),
        crate::unary::is_functional(g),
        f.accepts(x, y),
        f.gives(x, y, o),
        g.accepts(o),
        g.gives(o, c),
    ensures
        call_requires(r, (x, y)),
        forall|c2: C| call_ensures(r, (x, y), c2) ==> c2 == c,
{
    assert(chain_accepts(&f, &g, x, y));
    assert forall|c2: C| call_ensures(r, (x, y), c2) implies c2 == c by {
        assert(chain_gives(&f, &g, x, y, c2));
        let o2 = choose|o2: F::Output| f.gives(x, y, o2) && g.gives(o2, c2);
        assert(o2 == o);
    }
}

/// A composed callable keeps nothing from one invocation to the next: where `f` and `g`
/// return one value per input, so does the composition, whatever it was invoked on before.
pub proof fn lemma_chain_reusable<A, B, C, R, F, G>(r: R, f: F, g: G)
    where
        R: Fn(A, B) -> C,
        F: Binary<A, B>,
        G: Unary<F::Output, Output = C>,
    requires
        is_chain(r, &f, &g),
        is_functional(f),
        crate::unary::is_functional(g),
    ensures
        returns_one(r),
{
    assert forall|x: A, y: B, c1: C, c2: C|
        call_ensures(r, (x, y), c1) && call_ensures(r, (x, y), c2) implies c1 == c2 by {
        assert(chain_gives(&f, &g, x, y, c1));
        assert(chain_gives(&f, &g, x, y, c2));
        let o1 = choose|o: F::Output| f.gives(x, y, o) && g.gives(o, c1);
        let o2 = choose|o: F::Output| f.gives(x, y, o) && g.gives(o, c2);
        assert(o1 == o2);
    }
}

} // verus!

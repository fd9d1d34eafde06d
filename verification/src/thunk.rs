use vstd::prelude::*;

verus! {

/// A deferred computation or its already-computed result, exposed as a
/// single tagged value. Once a thunk becomes [`Thunk::Evaluated`] it never
/// reverts: evaluation consumes the pending computation, so it can run at
/// most once.
#[verifier::reject_recursive_types(T)]
pub enum Thunk<T, F: FnOnce() -> T> {
    /// A pending one-shot computation that will produce the value.
    Unevaluated(F),
    /// The computed value, cached for every later read.
    Evaluated(T),
}

impl<T, F: FnOnce() -> T> Thunk<T, F> {
    /// Whether the thunk already holds its computed value.
    pub open spec fn is_evaluated(self) -> bool {
        self is Evaluated
    }

    /// The cached value of an evaluated thunk.
    pub open spec fn value(self) -> T
        recommends
            self.is_evaluated(),
    {
        self->Evaluated_0
    }

    /// The thunk keeps the promise `post`: a pending computation is callable
    /// and can only produce values satisfying `post`; a cached value
    /// satisfies `post` itself.
    pub open spec fn wf(self, post: spec_fn(T) -> bool) -> bool {
        match self {
            Thunk::Unevaluated(f) => call_requires(f, ()) && (forall|v: T|
                #[trigger] call_ensures(f, (), v) ==> post(v)),
            Thunk::Evaluated(v) => post(v),
        }
    }

    /// How a thunk relates to the result of evaluating it: the result is
    /// evaluated; an already-evaluated thunk passes through unchanged, with
    /// nothing run; a pending computation's result is a value the
    /// computation may return.
    pub open spec fn evaluates_to(self, r: Self) -> bool {
        &&& r.is_evaluated()
        &&& self.is_evaluated() ==> r == self
        &&& self matches Thunk::Unevaluated(f) ==> call_ensures(f, (), r.value())
    }

    /// Evaluate the thunk and make it strict: run the pending computation,
    /// consuming it, or pass an already-cached value through untouched.
    pub fn evaluate(self) -> (r: Self)
        requires
            self matches Thunk::Unevaluated(f) ==> call_requires(f, ()),
        ensures
            self.evaluates_to(r),
    {
        match self {
            Thunk::Unevaluated(get) => Thunk::Evaluated(get()),
            done => done,
        }
    }

    /// Consider the thunk evaluated and get the underlying value.
    pub fn evaluated(&self) -> (r: &T)
        requires
            self.is_evaluated(),
        ensures
            *r == self.value(),
    {
        match self {
            Thunk::Evaluated(value) => value,
            Thunk::Unevaluated(_) => vstd::pervasive::unreached(),
        }
    }
}

/// Law: once a thunk is evaluated, evaluating it again changes nothing and
/// runs nothing — `evaluate` demands nothing of a computation then, because
/// none is left to run.
pub proof fn lemma_evaluated_is_stable<T, F: FnOnce() -> T>(
    t: Thunk<T, F>,
    r: Thunk<T, F>,
)
    requires
        t.is_evaluated(),
        t.evaluates_to(r),
    ensures
        r == t,
        r.value() == t.value(),
{
}

/// Law: evaluation is idempotent. Whatever evaluating a thunk produced, a
/// second evaluation returns that same thunk, with the same cached value.
pub proof fn lemma_evaluate_idempotent<T, F: FnOnce() -> T>(
    t: Thunk<T, F>,
    r1: Thunk<T, F>,
    r2: Thunk<T, F>,
)
    requires
        t.evaluates_to(r1),
        r1.evaluates_to(r2),
    ensures
        r2 == r1,
        r2.value() == r1.value(),
{
}

} // verus!

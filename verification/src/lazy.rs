use crate::thunk::Thunk;
use std::rc::Rc;
use vstd::prelude::*;
use vstd::rwlock::RwLock;
use vstd::rwlock::RwLockPredicate;

verus! {

/// `post` admits exactly the value `v`: it is the promise of a cell whose
/// cached result is pinned to a single value.
pub open spec fn determines<T>(post: spec_fn(T) -> bool, v: T) -> bool {
    forall|u: T| #[trigger] post(u) <==> u == v
}

/// `post` admits at most one value. It holds of any promise of the shape
/// [`determines`] describes, and of the postcondition of any closure whose
/// contract pins its result.
pub open spec fn at_most_one<T>(post: spec_fn(T) -> bool) -> bool {
    forall|u: T, w: T| #![trigger post(u), post(w)] post(u) && post(w) ==> u == w
}

/// The invariant of the shared slot: whatever thunk sits in it keeps the
/// promise `post` fixed when the cell was created.
#[verifier::reject_recursive_types(T)]
pub struct ThunkPred<T> {
    pub post: spec_fn(T) -> bool,
}

impl<T, F: FnOnce() -> T> RwLockPredicate<Thunk<T, F>> for ThunkPred<T> {
    open spec fn inv(self, t: Thunk<T, F>) -> bool {
        t.wf(self.post)
    }
}

/// A handle to a shared, lazily evaluated, memoizing value cell.
///
/// Every handle obtained by [`Lazy::duplicate`] refers to the same
/// underlying [`Thunk`]; whichever handle first forces the cell runs the
/// pending computation, and every later read through any handle returns
/// the one cached result without recomputation.
#[verifier::reject_recursive_types(T)]
pub struct Lazy<T, F: FnOnce() -> T> {
    cell: Rc<RwLock<Thunk<T, F>, ThunkPred<T>>>,
}

impl<T, F: FnOnce() -> T> Lazy<T, F> {
    /// The promise this cell was created with: every value [`Lazy::force`]
    /// ever returns, through this handle or any duplicate, satisfies it.
    pub closed spec fn post(self) -> spec_fn(T) -> bool {
        (*self.cell).pred().post
    }

    /// Create a new cell from a closure (laziness). Nothing runs yet; the
    /// cell's promise is exactly the closure's postcondition.
    pub fn lazy(f: F) -> (r: Self)
        requires
            call_requires(f, ()),
        ensures
            forall|v: T| #[trigger] (r.post())(v) <==> call_ensures(f, (), v),
    {
        let ghost post = |v: T| call_ensures(f, (), v);
        Lazy { cell: Rc::new(RwLock::new(Thunk::Unevaluated(f), Ghost(ThunkPred { post }))) }
    }

    /// Create a new cell from a value (strictness): the cell starts out
    /// evaluated, its promise pinned to exactly that value.
    pub fn strict(v: T) -> (r: Self)
        ensures
            determines(r.post(), v),
    {
        let ghost post = |u: T| u == v;
        Lazy { cell: Rc::new(RwLock::new(Thunk::Evaluated(v), Ghost(ThunkPred { post }))) }
    }

    /// Produce a second handle sharing the same underlying thunk: both
    /// handles carry the same promise, and at run time both observe the
    /// one cached result of the shared slot.
    pub fn duplicate(&self) -> (r: Self)
        ensures
            r.post() == self.post(),
    {
        Lazy { cell: self.cell.clone() }
    }

    /// Force the cell and read the cached value: run the pending
    /// computation if no handle has run it yet, cache its result in the
    /// shared slot as one atomic replacement, and return the cached value.
    pub fn force(&self) -> (r: T) where T: Copy
        ensures
            (self.post())(r),
    {
        let (thunk, write_handle) = self.cell.acquire_write();
        let thunk = thunk.evaluate();
        let r = *thunk.evaluated();
        write_handle.release_write(thunk);
        r
    }

    /// Force the cell and read a clone of the cached value, for payloads
    /// that cannot be copied. The cached value itself stays in the shared
    /// slot, so later reads through any handle still see it.
    pub fn force_cloned(&self) -> (r: T) where T: Clone
        ensures
            exists|v: T| (self.post())(v) && vstd::pervasive::cloned::<T>(v, r),
    {
        let (thunk, write_handle) = self.cell.acquire_write();
        let thunk = thunk.evaluate();
        let r = thunk.evaluated().clone();
        proof {
            assert((self.post())(thunk.value()) && vstd::pervasive::cloned::<T>(
                thunk.value(),
                r,
            ));
        }
        write_handle.release_write(thunk);
        r
    }
}

/// Law (strict construction shortcut): a cell whose promise is pinned to
/// `v` — as [`Lazy::strict`] ensures — can only ever be forced to `v`,
/// however many times and through whichever handle.
pub proof fn lemma_strict_force_yields_value<T, F: FnOnce() -> T>(
    c: Lazy<T, F>,
    v: T,
    r: T,
)
    requires
        determines(c.post(), v),
        (c.post())(r),
    ensures
        r == v,
{
}

/// Law (memoization and sharing): handles `a` and `b` carry the same
/// promise — as [`Lazy::duplicate`] ensures, and trivially when they are
/// one handle — and that promise admits at most one value. Then any two
/// reads, through either handle and in either order, return equal values.
pub proof fn lemma_shared_forces_agree<T, F: FnOnce() -> T>(
    a: Lazy<T, F>,
    b: Lazy<T, F>,
    ra: T,
    rb: T,
)
    requires
        b.post() == a.post(),
        at_most_one(a.post()),
        (a.post())(ra),
        (b.post())(rb),
    ensures
        ra == rb,
{
}

} // verus!

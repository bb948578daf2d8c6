use vstd::prelude::*;

verus! {

/// What a strategy hands back: a single unsigned value.
#[derive(Debug, Clone, Copy, PartialEq, Eq, Structural)]
pub struct Stuff {
    pub val: usize,
}

/// The capability: one operation that produces a `Stuff`.
pub trait Strategy {
    /// The value that `do_stuff` puts in every `Stuff` it returns.
    spec fn tag(&self) -> usize;

    fn do_stuff(&self) -> (r: Stuff)
        ensures
            r.val == self.tag(),
    ;
}

/// The first strategy; its tag is 1.
pub struct S1 {}

impl Strategy for S1 {
    open spec fn tag(&self) -> usize {
        1
    }

    fn do_stuff(&self) -> (r: Stuff) {
        Stuff { val: 1 }
    }
}

/// The second strategy; its tag is 2.
pub struct S2 {}

impl Strategy for S2 {
    open spec fn tag(&self) -> usize {
        2
    }

    fn do_stuff(&self) -> (r: Stuff) {
        Stuff { val: 2 }
    }
}

/// Invokes the strategy through a trait object.
pub fn algorithm(strategy: &dyn Strategy) -> (r: Stuff)
    ensures
        r.val == strategy.tag(),
{
    strategy.do_stuff()
}

/// Invokes the strategy through a type parameter, which may itself be a
/// trait object.
pub fn algorithm2<T: Strategy + ?Sized>(strategy: &T) -> (r: Stuff)
    ensures
        r.val == strategy.tag(),
{
    strategy.do_stuff()
}

/// One of the two strategies, told apart by its variant.
pub enum AnyStrategy {
    First(S1),
    Second(S2),
}

impl Strategy for AnyStrategy {
    open spec fn tag(&self) -> usize {
        match self {
            AnyStrategy::First(s) => s.tag(),
            AnyStrategy::Second(s) => s.tag(),
        }
    }

    fn do_stuff(&self) -> (r: Stuff) {
        match self {
            AnyStrategy::First(s) => s.do_stuff(),
            AnyStrategy::Second(s) => s.do_stuff(),
        }
    }
}

/// The strategy that the selector `s` names: `S1` for 1, `S2` for any other.
pub open spec fn selected(s: usize) -> AnyStrategy {
    if s == 1 {
        AnyStrategy::First(S1 {})
    } else {
        AnyStrategy::Second(S2 {})
    }
}

/// Builds, on the heap, the strategy that `s` selects: `S1` for 1, `S2` for 2.
/// No other selector names a strategy. The handle holds the tagged
/// `AnyStrategy`; a reference to its contents serves as `&dyn Strategy`.
pub fn factory(s: usize) -> (r: Box<AnyStrategy>)
    requires
        s == 1 || s == 2,
    ensures
        *r == selected(s),
        r.tag() == s,
{
    if s == 1 {
        Box::new(AnyStrategy::First(S1 {}))
    } else {
        Box::new(AnyStrategy::Second(S2 {}))
    }
}

/// For selector 1 or 2, the strategy that `factory` builds hands back that
/// selector as its value: a `Stuff` that `do_stuff` (or either wrapper)
/// returns for `selected(s)` holds `s`.
pub proof fn lemma_factory_value_is_selector(s: usize, out: Stuff)
    requires
        s == 1 || s == 2,
        out.val == selected(s).tag(),
    ensures
        out.val == s,
{
}

/// A strategy holds no state that a call changes: any two results obtained
/// from one strategy, by `do_stuff` directly, by `algorithm` or by
/// `algorithm2`, and however many times, are equal.
pub proof fn lemma_results_agree<T: Strategy + ?Sized>(strategy: &T, first: Stuff, second: Stuff)
    requires
        first.val == strategy.tag(),
        second.val == strategy.tag(),
    ensures
        first == second,
{
}

} // verus!

//! The condition model: a boolean expression tree over declared facts, used
//! to decide whether a compile or run failure is allowed or required.

use vstd::prelude::*;
use vstd::std_specs::cmp::PartialEqSpec;

verus! {

/// Wildcard-or-membership constraint used inside condition leaves.  An
/// absent list places no constraint at all; a present list requires the
/// value to be one of its members, so a present empty list rejects every
/// value.
pub struct AnyOneOf<T>(pub Option<Vec<T>>);

impl<T: PartialEq> AnyOneOf<T> {
    /// Whether `x` satisfies this constraint: an absent list matches every
    /// value, a present list matches exactly its members.
    pub open spec fn spec_matches(&self, x: &T) -> bool {
        match self.0 {
            None => true,
            Some(set) => exists|i: int| 0 <= i < set@.len() && (#[trigger] set@[i]).eq_spec(x),
        }
    }

    /// Decides whether `x` satisfies this constraint.
    pub fn matches(&self, x: &T) -> (r: bool)
        requires
            T::obeys_eq_spec(),
        ensures
            r == self.spec_matches(x),
    {
        match &self.0 {
            None => true,
            Some(set) => {
                let mut i: usize = 0;
                while i < set.len()
                    invariant
                        T::obeys_eq_spec(),
                        self.0 == Some(*set),
                        0 <= i <= set@.len(),
                        forall|j: int| 0 <= j < i ==> !(#[trigger] set@[j]).eq_spec(x),
                    decreases set@.len() - i,
                {
                    if set[i].eq(x) {
                        proof {
                            assert((self.0->Some_0)@[i as int].eq_spec(x));
                        }
                        return true;
                    }
                    i += 1;
                }
                false
            }
        }
    }
}

/// Law: the absent constraint matches every value; a present empty list
/// matches no value; a present list matches exactly its members.
pub proof fn lemma_any_one_of_matches<T: PartialEq>(a: AnyOneOf<T>, x: T)
    ensures
        a.0 is None ==> a.spec_matches(&x),
        a.0 matches Some(s) && s@.len() == 0 ==> !a.spec_matches(&x),
        a.0 matches Some(s) ==> (a.spec_matches(&x) <==> exists|i: int|
            0 <= i < s@.len() && (#[trigger] s@[i]).eq_spec(&x)),
{
}

/// A condition over facts of type `Facts`.  Leaf condition types say what
/// it means for them to be met; the tree below combines them.
pub trait Condition<Facts> {
    /// What it means for this condition to be met by the given facts.
    spec fn spec_is_met(&self, f: &Facts) -> bool;

    /// Decides whether this condition is met by the given facts.
    fn is_met(&self, f: &Facts) -> (r: bool)
        ensures
            r == self.spec_is_met(f),
    ;
}

/// An internal node of a condition tree: the conjunction or the disjunction
/// of its children.
pub enum ConditionCollectionHelper<C> {
    All(Vec<ConditionCollection<C>>),
    Any(Vec<ConditionCollection<C>>),
}

/// A tree of conditions over a leaf condition type `C`: internal nodes are
/// `All` or `Any`, leaves are bare conditions.
pub enum ConditionCollection<C> {
    Collection(ConditionCollectionHelper<C>),
    Cond(C),
}

impl<Facts, C: Condition<Facts>> Condition<Facts> for ConditionCollection<C> {
    /// `All` children must all be met (vacuously true of no children);
    /// `Any` asks for at least one met child (vacuously false of no
    /// children); a leaf goes by the leaf condition itself.
    open spec fn spec_is_met(&self, f: &Facts) -> bool
        decreases self,
    {
        match self {
            ConditionCollection::Collection(ConditionCollectionHelper::All(cs)) => forall|i: int|
                0 <= i < cs@.len() ==> (#[trigger] cs@[i]).spec_is_met(f),
            ConditionCollection::Collection(ConditionCollectionHelper::Any(cs)) => exists|i: int|
                0 <= i < cs@.len() && (#[trigger] cs@[i]).spec_is_met(f),
            ConditionCollection::Cond(c) => c.spec_is_met(f),
        }
    }

    fn is_met(&self, f: &Facts) -> (r: bool)
        decreases self,
    {
        match self {
            ConditionCollection::Collection(ConditionCollectionHelper::All(cs)) => {
                let mut i: usize = 0;
                while i < cs.len()
                    invariant
                        0 <= i <= cs@.len(),
                        cs == self->Collection_0->All_0,
                        self is Collection && self->Collection_0 is All,
                        forall|j: int| 0 <= j < i ==> (#[trigger] cs@[j]).spec_is_met(f),
                    decreases cs@.len() - i,
                {
                    proof {
                        assert(decreases_to!(*self => self->Collection_0->All_0));
                        assert(decreases_to!(self->Collection_0->All_0 =>
                            self->Collection_0->All_0@[i as int]));
                    }
                    if !cs[i].is_met(f) {
                        proof {
                            assert(!cs@[i as int].spec_is_met(f));
                        }
                        return false;
                    }
                    i += 1;
                }
                true
            }
            ConditionCollection::Collection(ConditionCollectionHelper::Any(cs)) => {
                let mut i: usize = 0;
                while i < cs.len()
                    invariant
                        0 <= i <= cs@.len(),
                        cs == self->Collection_0->Any_0,
                        self is Collection && self->Collection_0 is Any,
                        forall|j: int| 0 <= j < i ==> !(#[trigger] cs@[j]).spec_is_met(f),
                    decreases cs@.len() - i,
                {
                    proof {
                        assert(decreases_to!(*self => self->Collection_0->Any_0));
                        assert(decreases_to!(self->Collection_0->Any_0 =>
                            self->Collection_0->Any_0@[i as int]));
                    }
                    if cs[i].is_met(f) {
                        proof {
                            assert(cs@[i as int].spec_is_met(f));
                        }
                        return true;
                    }
                    i += 1;
                }
                false
            }
            ConditionCollection::Cond(c) => c.is_met(f),
        }
    }
}

impl<Facts, C: Condition<Facts>> Condition<Facts> for Option<C> {
    /// An absent condition tree is never met: nothing is allowed or
    /// required by default.
    open spec fn spec_is_met(&self, f: &Facts) -> bool {
        match self {
            Some(c) => c.spec_is_met(f),
            None => false,
        }
    }

    fn is_met(&self, f: &Facts) -> (r: bool) {
        match self {
            Some(c) => c.is_met(f),
            None => false,
        }
    }
}

/// Law: over any facts, `All` of no children evaluates true and `Any` of no
/// children evaluates false, and an absent condition tree evaluates false.
pub proof fn lemma_vacuous_conditions<Facts, C: Condition<Facts>>(
    cs: Vec<ConditionCollection<C>>,
    f: Facts,
)
    requires
        cs@.len() == 0,
    ensures
        ConditionCollection::Collection(ConditionCollectionHelper::All(cs)).spec_is_met(&f),
        !ConditionCollection::Collection(ConditionCollectionHelper::Any(cs)).spec_is_met(&f),
        !(None::<ConditionCollection<C>>).spec_is_met(&f),
{
}

} // verus!

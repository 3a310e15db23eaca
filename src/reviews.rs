use vstd::prelude::*;

use crate::model::ReviewAction;
use crate::strategy::{extract_actions, plan_is_empty, plan_of, PlanView, Strategy};

verus! {

/// The plans of the backends reviewed in `reviews`, in their order, leaving out
/// those with nothing to do.
pub open spec fn strategies_of<B>(reviews: Seq<(B, Seq<ReviewAction>)>) -> Seq<PlanView<B>>
    decreases reviews.len(),
{
    if reviews.len() == 0 {
        Seq::empty()
    } else {
        let rest = strategies_of(reviews.drop_last());
        let plan = plan_of(reviews.last().0, reviews.last().1);
        if plan_is_empty(plan) {
            rest
        } else {
            rest.push(plan)
        }
    }
}

/// No backend in `reviews` has an action.
pub open spec fn all_reviews_empty<B>(reviews: Seq<(B, Seq<ReviewAction>)>) -> bool {
    forall|i: int| 0 <= i < reviews.len() ==> (#[trigger] reviews[i]).1.len() == 0
}

/// The views of a list of strategies.
pub open spec fn plans<B>(strategies: Seq<Strategy<B>>) -> Seq<PlanView<B>> {
    strategies.map_values(|s: Strategy<B>| s@)
}

/// The actions decided during a review, per backend, in the order in which
/// the backends were reviewed. A backend that comes twice is two entries.
pub struct ReviewsPerBackend<B> {
    items: Vec<(B, Vec<ReviewAction>)>,
}

impl<B> View for ReviewsPerBackend<B> {
    type V = Seq<(B, Seq<ReviewAction>)>;

    closed spec fn view(&self) -> Seq<(B, Seq<ReviewAction>)> {
        self.items@.map_values(|e: (B, Vec<ReviewAction>)| (e.0, e.1@))
    }
}

impl<B> ReviewsPerBackend<B> {
    pub fn new() -> (r: Self)
        ensures
            r@ == Seq::<(B, Seq<ReviewAction>)>::empty(),
    {
        let r = ReviewsPerBackend { items: Vec::new() };
        assert(r@ =~= Seq::<(B, Seq<ReviewAction>)>::empty());
        r
    }

    /// True when no backend has an action.
    pub fn nothing_to_do(&self) -> (r: bool)
        ensures
            r == all_reviews_empty(self@),
    {
        let mut i: usize = 0;
        while i < self.items.len()
            invariant
                i <= self.items@.len(),
                forall|j: int| 0 <= j < i ==> (#[trigger] self@[j]).1.len() == 0,
            decreases self.items@.len() - i,
        {
            if self.items[i].1.len() != 0 {
                assert(self@[i as int].1.len() != 0);
                return false;
            }
            i = i + 1;
        }
        true
    }

    /// Record the actions decided for one more backend.
    pub fn push(&mut self, value: (B, Vec<ReviewAction>))
        ensures
            final(self)@ == old(self)@.push((value.0, value.1@)),
    {
        self.items.push(value);
        assert(self@ =~= old(self)@.push((value.0, value.1@)));
    }

    /// Convert the reviews to one [`Strategy`] per backend, which holds all
    /// actions that must be executed for it, in the order of the backends.
    ///
    /// A backend without actions gets no strategy.
    pub fn into_strategies(self) -> (r: Vec<Strategy<B>>)
        ensures
            plans(r@) == strategies_of(self@),
            forall|i: int| 0 <= i < r@.len() ==> !plan_is_empty(#[trigger] r@[i]@),
    {
        let ghost all = self@;
        let mut items = self.items;
        let ghost orig = items@;
        let mut result: Vec<Strategy<B>> = Vec::new();
        let ghost mut i: int = 0;
        proof {
            assert(all.subrange(0, 0) =~= Seq::<(B, Seq<ReviewAction>)>::empty());
            assert(plans(result@) =~= strategies_of(all.subrange(0, 0)));
            assert(items@ =~= orig.subrange(0, orig.len() as int));
        }
        while items.len() > 0
            invariant
                0 <= i <= orig.len(),
                all.len() == orig.len(),
                forall|j: int| 0 <= j < orig.len() ==> #[trigger] all[j] == (orig[j].0, orig[j].1@),
                items@ == orig.subrange(i, orig.len() as int),
                plans(result@) == strategies_of(all.subrange(0, i)),
                forall|j: int| 0 <= j < result@.len() ==> !plan_is_empty(#[trigger] result@[j]@),
            decreases items.len(),
        {
            let (backend, actions) = items.remove(0);
            let ghost entry = (backend, actions@);
            let mut to_delete: Vec<_> = Vec::new();
            let mut assign_group: Vec<_> = Vec::new();
            let mut as_dependency: Vec<_> = Vec::new();
            extract_actions(actions, &mut to_delete, &mut assign_group, &mut as_dependency);
            let strategy = Strategy::new(backend, to_delete, as_dependency, assign_group);
            proof {
                assert(all.subrange(0, i + 1).drop_last() =~= all.subrange(0, i));
                assert(all.subrange(0, i + 1).last() == entry);
                assert(strategy@ =~= plan_of(entry.0, entry.1));
            }
            let ghost before = result@;
            let ghost plan = strategy@;
            if !strategy.nothing_to_do() {
                result.push(strategy);
                assert(plans(result@) =~= plans(before).push(plan));
            }
            proof {
                i = i + 1;
                assert(items@ =~= orig.subrange(i, orig.len() as int));
            }
        }
        proof {
            assert(all.subrange(0, i) =~= all);
        }
        result
    }
}

} // verus!

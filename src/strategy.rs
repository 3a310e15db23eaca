use vstd::prelude::*;

use crate::model::{Package, ReviewAction};

verus! {

/// The packages that `actions` delete, in order.
pub open spec fn deleted(actions: Seq<ReviewAction>) -> Seq<Package>
    decreases actions.len(),
{
    if actions.len() == 0 {
        Seq::empty()
    } else {
        let rest = deleted(actions.drop_last());
        match actions.last() {
            ReviewAction::Delete(p) => rest.push(p),
            _ => rest,
        }
    }
}

/// The packages that `actions` mark as dependencies, in order.
pub open spec fn dependencies(actions: Seq<ReviewAction>) -> Seq<Package>
    decreases actions.len(),
{
    if actions.len() == 0 {
        Seq::empty()
    } else {
        let rest = dependencies(actions.drop_last());
        match actions.last() {
            ReviewAction::AsDependency(p) => rest.push(p),
            _ => rest,
        }
    }
}

/// The (package, group index) pairs that `actions` assign, in order.
pub open spec fn assignments(actions: Seq<ReviewAction>) -> Seq<(Package, usize)>
    decreases actions.len(),
{
    if actions.len() == 0 {
        Seq::empty()
    } else {
        let rest = assignments(actions.drop_last());
        match actions.last() {
            ReviewAction::AssignGroup(p, g) => rest.push((p, g)),
            _ => rest,
        }
    }
}

/// What one backend is to do: delete, mark as dependency, and assign to groups.
pub type PlanView<B> = (B, Seq<Package>, Seq<Package>, Seq<(Package, usize)>);

/// The plan of a backend whose review produced `actions`.
pub open spec fn plan_of<B>(backend: B, actions: Seq<ReviewAction>) -> PlanView<B> {
    (backend, deleted(actions), dependencies(actions), assignments(actions))
}

/// A plan with nothing to delete, mark or assign.
pub open spec fn plan_is_empty<B>(plan: PlanView<B>) -> bool {
    plan.1.len() == 0 && plan.2.len() == 0 && plan.3.len() == 0
}

/// The three lists of a plan split `actions` between them: each action lands in
/// exactly one, so their lengths add up to the number of actions.
pub proof fn lemma_partition_len(actions: Seq<ReviewAction>)
    ensures
        deleted(actions).len() + dependencies(actions).len() + assignments(actions).len()
            == actions.len(),
    decreases actions.len(),
{
    if actions.len() > 0 {
        lemma_partition_len(actions.drop_last());
    }
}

/// Everything that must be executed for one backend.
pub struct Strategy<B> {
    pub backend: B,
    pub to_delete: Vec<Package>,
    pub as_dependency: Vec<Package>,
    pub assign_group: Vec<(Package, usize)>,
}

impl<B> View for Strategy<B> {
    type V = PlanView<B>;

    open spec fn view(&self) -> PlanView<B> {
        (self.backend, self.to_delete@, self.as_dependency@, self.assign_group@)
    }
}

impl<B> Strategy<B> {
    pub fn new(
        backend: B,
        to_delete: Vec<Package>,
        as_dependency: Vec<Package>,
        assign_group: Vec<(Package, usize)>,
    ) -> (r: Self)
        ensures
            r@ == (backend, to_delete@, as_dependency@, assign_group@),
    {
        Strategy { backend, to_delete, as_dependency, assign_group }
    }

    /// True when the three lists are empty.
    pub fn nothing_to_do(&self) -> (r: bool)
        ensures
            r == plan_is_empty(self@),
    {
        self.to_delete.len() == 0 && self.as_dependency.len() == 0 && self.assign_group.len() == 0
    }
}

/// Sort `actions` by kind onto the ends of the three lists, keeping their order
/// within each kind.
pub fn extract_actions(
    actions: Vec<ReviewAction>,
    to_delete: &mut Vec<Package>,
    assign_group: &mut Vec<(Package, usize)>,
    as_dependency: &mut Vec<Package>,
)
    ensures
        final(to_delete)@ == old(to_delete)@ + deleted(actions@),
        final(assign_group)@ == old(assign_group)@ + assignments(actions@),
        final(as_dependency)@ == old(as_dependency)@ + dependencies(actions@),
{
    let mut actions = actions;
    let ghost all = actions@;
    let ghost mut i: int = 0;
    proof {
        assert(all.subrange(0, 0) =~= Seq::<ReviewAction>::empty());
        assert(to_delete@ =~= old(to_delete)@ + deleted(all.subrange(0, 0)));
        assert(assign_group@ =~= old(assign_group)@ + assignments(all.subrange(0, 0)));
        assert(as_dependency@ =~= old(as_dependency)@ + dependencies(all.subrange(0, 0)));
        assert(actions@ =~= all.subrange(0, all.len() as int));
    }
    while actions.len() > 0
        invariant
            0 <= i <= all.len(),
            actions@ == all.subrange(i, all.len() as int),
            to_delete@ == old(to_delete)@ + deleted(all.subrange(0, i)),
            assign_group@ == old(assign_group)@ + assignments(all.subrange(0, i)),
            as_dependency@ == old(as_dependency)@ + dependencies(all.subrange(0, i)),
        decreases actions.len(),
    {
        let action = actions.remove(0);
        proof {
            assert(all.subrange(0, i + 1).drop_last() =~= all.subrange(0, i));
            assert(all.subrange(0, i + 1).last() == action);
        }
        match action {
            ReviewAction::Delete(package) => to_delete.push(package),
            ReviewAction::AssignGroup(package, group) => assign_group.push((package, group)),
            ReviewAction::AsDependency(package) => as_dependency.push(package),
        }
        proof {
            i = i + 1;
            assert(actions@ =~= all.subrange(i, all.len() as int));
        }
    }
    proof {
        assert(all.subrange(0, i) =~= all);
    }
}

} // verus!

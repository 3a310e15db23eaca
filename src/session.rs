use vstd::prelude::*;

use crate::model::{Package, ReviewAction};
use crate::reviews::{all_reviews_empty, plans, strategies_of, ReviewsPerBackend};
use crate::strategy::{PlanView, Strategy};

verus! {

/// No backend in `todo` has a package to review.
pub open spec fn nothing_pending<B>(todo: Seq<(B, Seq<Package>)>) -> bool {
    forall|i: int| 0 <= i < todo.len() ==> (#[trigger] todo[i]).1.len() == 0
}

/// True when no backend has a package to review: the review then reports that
/// there is nothing to do, and asks nothing.
pub fn nothing_to_review<B>(todo: &Vec<(B, Vec<Package>)>) -> (r: bool)
    ensures
        r == nothing_pending(todo@.map_values(|e: (B, Vec<Package>)| (e.0, e.1@))),
{
    let ghost pending = todo@.map_values(|e: (B, Vec<Package>)| (e.0, e.1@));
    let mut i: usize = 0;
    while i < todo.len()
        invariant
            i <= todo@.len(),
            pending == todo@.map_values(|e: (B, Vec<Package>)| (e.0, e.1@)),
            forall|j: int| 0 <= j < i ==> (#[trigger] pending[j]).1.len() == 0,
        decreases todo@.len() - i,
    {
        if todo[i].1.len() != 0 {
            assert(pending[i as int].1.len() != 0);
            return false;
        }
        i = i + 1;
    }
    true
}

/// How a review that went through every package, or was quit, ends.
#[derive(Clone, Copy, Debug, PartialEq, Eq)]
pub enum OutcomeKind {
    /// The user quit: nothing is shown or executed.
    Aborted,
    /// No backend has an action: this is reported, nothing is executed.
    NothingToDo,
    /// The strategies are shown, and executed once the user confirms.
    Confirm,
}

pub open spec fn outcome_kind<B>(reviews: Seq<(B, Seq<ReviewAction>)>, quit: bool) -> OutcomeKind {
    if quit {
        OutcomeKind::Aborted
    } else if all_reviews_empty(reviews) {
        OutcomeKind::NothingToDo
    } else {
        OutcomeKind::Confirm
    }
}

/// The plans that a review executes: those of its strategies, where it ends
/// in a confirmation that the user gives; none otherwise.
pub open spec fn executed_plans<B>(
    reviews: Seq<(B, Seq<ReviewAction>)>,
    quit: bool,
    confirmed: bool,
) -> Seq<PlanView<B>> {
    if outcome_kind(reviews, quit) == OutcomeKind::Confirm && confirmed {
        strategies_of(reviews)
    } else {
        Seq::empty()
    }
}

/// The end of a review, with the strategies to show where there are some.
pub enum ReviewOutcome<B> {
    Aborted,
    NothingToDo,
    Confirm(Vec<Strategy<B>>),
}

impl<B> ReviewOutcome<B> {
    pub open spec fn kind(&self) -> OutcomeKind {
        match self {
            ReviewOutcome::Aborted => OutcomeKind::Aborted,
            ReviewOutcome::NothingToDo => OutcomeKind::NothingToDo,
            ReviewOutcome::Confirm(_) => OutcomeKind::Confirm,
        }
    }
}

/// Conclude a review whose decisions are `reviews`, or which the user quit.
pub fn finish_review<B>(reviews: ReviewsPerBackend<B>, quit: bool) -> (r: ReviewOutcome<B>)
    ensures
        r.kind() == outcome_kind(reviews@, quit),
        r matches ReviewOutcome::Confirm(s) ==> plans(s@) == strategies_of(reviews@)
            && s@.len() > 0,
{
    if quit {
        return ReviewOutcome::Aborted;
    }
    if reviews.nothing_to_do() {
        return ReviewOutcome::NothingToDo;
    }
    proof {
        lemma_strategies_empty_iff(reviews@);
    }
    ReviewOutcome::Confirm(reviews.into_strategies())
}

/// The strategies to execute, in order, once the user has answered the one
/// confirmation for the whole batch.
pub fn strategies_to_execute<B>(outcome: ReviewOutcome<B>, confirmed: bool) -> (r: Vec<
    Strategy<B>,
>)
    ensures
        plans(r@) == match outcome {
            ReviewOutcome::Confirm(s) if confirmed => plans(s@),
            _ => Seq::empty(),
        },
{
    match outcome {
        ReviewOutcome::Confirm(s) => {
            if confirmed {
                s
            } else {
                let r = Vec::new();
                assert(plans(r@) =~= Seq::empty());
                r
            }
        },
        _ => {
            let r = Vec::new();
            assert(plans(r@) =~= Seq::empty());
            r
        },
    }
}

/// A review yields no strategy exactly when no backend has an action.
pub proof fn lemma_strategies_empty_iff<B>(reviews: Seq<(B, Seq<ReviewAction>)>)
    ensures
        strategies_of(reviews).len() == 0 <==> all_reviews_empty(reviews),
    decreases reviews.len(),
{
    if reviews.len() > 0 {
        let rest = reviews.drop_last();
        lemma_strategies_empty_iff(rest);
        crate::strategy::lemma_partition_len(reviews.last().1);
        if all_reviews_empty(reviews) {
            assert forall|i: int| 0 <= i < rest.len() implies (#[trigger] rest[i]).1.len() == 0 by {
                assert(rest[i] == reviews[i]);
            }
            assert(reviews[reviews.len() - 1].1.len() == 0);
        } else if all_reviews_empty(rest) {
            let i = choose|i: int| 0 <= i < reviews.len() && (#[trigger] reviews[i]).1.len() != 0;
            if i < rest.len() {
                assert(rest[i] == reviews[i]);
            }
        }
    }
}

} // verus!

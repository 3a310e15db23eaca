use vstd::prelude::*;

use crate::keys::intention_of;
use crate::model::{Package, ReviewAction};
use crate::reviews::{all_reviews_empty, strategies_of};
use crate::session::{executed_plans, lemma_strategies_empty_iff, outcome_kind, OutcomeKind};
use crate::groups::{decimal_value, is_decimal, is_group_choice, unsigned_part};
use crate::step::{recorded, recorded_group, step_after, step_after_group, with_action, PackageStep};

verus! {

/// Skipping a package records nothing for it and goes on with the next one.
pub proof fn skip_records_nothing(
    package: Package,
    reviews: Seq<ReviewAction>,
    key: char,
    supports_as_dependency: bool,
)
    requires
        key == 's' || key == 'S',
    ensures
        with_action(reviews, recorded(package, intention_of(key, supports_as_dependency)))
            == reviews,
        step_after(package, intention_of(key, supports_as_dependency)) == PackageStep::Next,
{
}

/// When no backend has an action, as when every package was skipped, the
/// review reports that there is nothing to do, builds no strategy and
/// executes nothing, whatever the user would confirm.
pub proof fn all_skipped_executes_nothing<B>(
    reviews: Seq<(B, Seq<ReviewAction>)>,
    confirmed: bool,
)
    requires
        all_reviews_empty(reviews),
    ensures
        outcome_kind(reviews, false) == OutcomeKind::NothingToDo,
        strategies_of(reviews).len() == 0,
        executed_plans(reviews, false, confirmed).len() == 0,
{
    lemma_strategies_empty_iff(reviews);
}

/// Quitting records nothing for the package at hand and stops the review; a
/// review that was quit executes nothing, however many packages were decided
/// before.
pub proof fn quit_executes_nothing<B>(
    package: Package,
    actions: Seq<ReviewAction>,
    key: char,
    supports_as_dependency: bool,
    reviews: Seq<(B, Seq<ReviewAction>)>,
    confirmed: bool,
)
    requires
        key == 'q' || key == 'Q',
    ensures
        with_action(actions, recorded(package, intention_of(key, supports_as_dependency)))
            == actions,
        step_after(package, intention_of(key, supports_as_dependency)) == PackageStep::Quit,
        outcome_kind(reviews, true) == OutcomeKind::Aborted,
        executed_plans(reviews, true, confirmed).len() == 0,
{
}

/// On a backend that cannot mark packages as dependencies, the key for it acts
/// as any unrecognised key: nothing is recorded and the question is asked
/// again.
pub proof fn as_dependency_key_invalid_without_support(
    package: Package,
    actions: Seq<ReviewAction>,
    key: char,
    other: char,
)
    requires
        key == 'a' || key == 'A',
        intention_of(other, false) == crate::model::ReviewIntention::Invalid,
    ensures
        intention_of(key, false) == intention_of(other, false),
        with_action(actions, recorded(package, intention_of(key, false))) == actions,
        step_after(package, intention_of(key, false)) == PackageStep::Ask(package),
{
}

/// Among `n_groups` groups, a reply that is no number, or a number not below
/// `n_groups`, selects no group: whatever choice is read from such a reply,
/// nothing is recorded and the question about the package is asked again.
pub proof fn invalid_group_reply_reasks(
    package: Package,
    actions: Seq<ReviewAction>,
    reply: Seq<char>,
    n_groups: usize,
    choice: Option<usize>,
)
    requires
        !is_decimal(unsigned_part(reply)) || decimal_value(unsigned_part(reply)) >= n_groups,
        choice is Some <==> is_group_choice(reply, n_groups as nat),
    ensures
        with_action(actions, recorded_group(package, choice, n_groups)) == actions,
        step_after_group(package, choice, n_groups) == PackageStep::Ask(package),
{
}

} // verus!

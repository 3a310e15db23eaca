use vstd::prelude::*;

use crate::keys::{ask_user_action_for_package, intention_of};
use crate::model::{Package, ReviewAction, ReviewIntention};

verus! {

/// What the review of one package does after a keystroke.
#[derive(Debug, PartialEq, Eq)]
pub enum PackageStep {
    /// Ask again about the package.
    Ask(Package),
    /// Show the backend's information on the package, then ask again.
    Info(Package),
    /// List the groups and read the user's choice among them.
    ChooseGroup(Package),
    /// The package is decided or skipped: go on with the next one.
    Next,
    /// Stop the whole review, with nothing executed.
    Quit,
}

/// The action that `intention` records for `package`, if any.
pub open spec fn recorded(package: Package, intention: ReviewIntention) -> Option<ReviewAction> {
    match intention {
        ReviewIntention::AsDependency => Some(ReviewAction::AsDependency(package)),
        ReviewIntention::Delete => Some(ReviewAction::Delete(package)),
        _ => None,
    }
}

/// Where the review of `package` goes after `intention`.
pub open spec fn step_after(package: Package, intention: ReviewIntention) -> PackageStep {
    match intention {
        ReviewIntention::AsDependency => PackageStep::Next,
        ReviewIntention::Delete => PackageStep::Next,
        ReviewIntention::Skip => PackageStep::Next,
        ReviewIntention::AssignGroup => PackageStep::ChooseGroup(package),
        ReviewIntention::Info => PackageStep::Info(package),
        ReviewIntention::Invalid => PackageStep::Ask(package),
        ReviewIntention::Quit => PackageStep::Quit,
    }
}

/// `reviews` after `action` is recorded, if there is one.
pub open spec fn with_action(reviews: Seq<ReviewAction>, action: Option<ReviewAction>) -> Seq<
    ReviewAction,
> {
    match action {
        Some(a) => reviews.push(a),
        None => reviews,
    }
}

/// Handle the key that the user pressed about `package` on a backend with the
/// given capability: record the decision in `reviews` where there is one, and
/// say what comes next.
pub fn get_action_for_package(
    package: Package,
    key: char,
    supports_as_dependency: bool,
    reviews: &mut Vec<ReviewAction>,
) -> (r: PackageStep)
    ensures
        final(reviews)@ == with_action(
            old(reviews)@,
            recorded(package, intention_of(key, supports_as_dependency)),
        ),
        r == step_after(package, intention_of(key, supports_as_dependency)),
{
    match ask_user_action_for_package(key, supports_as_dependency) {
        ReviewIntention::AsDependency => {
            reviews.push(ReviewAction::AsDependency(package));
            PackageStep::Next
        },
        ReviewIntention::AssignGroup => PackageStep::ChooseGroup(package),
        ReviewIntention::Delete => {
            reviews.push(ReviewAction::Delete(package));
            PackageStep::Next
        },
        ReviewIntention::Info => PackageStep::Info(package),
        ReviewIntention::Invalid => PackageStep::Ask(package),
        ReviewIntention::Skip => PackageStep::Next,
        ReviewIntention::Quit => PackageStep::Quit,
    }
}

/// The action that the group `choice` records for `package` among `n_groups`
/// groups, if it is a valid choice.
pub open spec fn recorded_group(package: Package, choice: Option<usize>, n_groups: usize) -> Option<
    ReviewAction,
> {
    match choice {
        Some(g) if g < n_groups => Some(ReviewAction::AssignGroup(package, g)),
        _ => None,
    }
}

/// Where the review of `package` goes after the group `choice`.
pub open spec fn step_after_group(package: Package, choice: Option<usize>, n_groups: usize) -> PackageStep {
    match choice {
        Some(g) if g < n_groups => PackageStep::Next,
        _ => PackageStep::Ask(package),
    }
}

/// Assign `package` to the group that the user chose among `n_groups`, and go
/// on with the next package; without a valid choice, record nothing and ask
/// again.
pub fn assign_group_to_package(
    package: Package,
    choice: Option<usize>,
    n_groups: usize,
    reviews: &mut Vec<ReviewAction>,
) -> (r: PackageStep)
    ensures
        final(reviews)@ == with_action(old(reviews)@, recorded_group(package, choice, n_groups)),
        r == step_after_group(package, choice, n_groups),
{
    match choice {
        Some(g) => {
            if g < n_groups {
                reviews.push(ReviewAction::AssignGroup(package, g));
                PackageStep::Next
            } else {
                PackageStep::Ask(package)
            }
        },
        None => PackageStep::Ask(package),
    }
}

} // verus!

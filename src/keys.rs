use vstd::prelude::*;

use crate::model::ReviewIntention;

verus! {

/// The intention that key `c` stands for, the case of letters aside.
/// Marking as a dependency is only offered where the backend supports it;
/// elsewhere its key is not recognised.
pub open spec fn intention_of(c: char, supports_as_dependency: bool) -> ReviewIntention {
    if (c == 'a' || c == 'A') && supports_as_dependency {
        ReviewIntention::AsDependency
    } else if c == 'd' || c == 'D' {
        ReviewIntention::Delete
    } else if c == 'g' || c == 'G' {
        ReviewIntention::AssignGroup
    } else if c == 'i' || c == 'I' {
        ReviewIntention::Info
    } else if c == 'q' || c == 'Q' {
        ReviewIntention::Quit
    } else if c == 's' || c == 'S' {
        ReviewIntention::Skip
    } else {
        ReviewIntention::Invalid
    }
}

/// Map the key that the user pressed to the associated [`ReviewIntention`].
/// The keys on offer depend on the capabilities of the backend.
pub fn ask_user_action_for_package(key: char, supports_as_dependency: bool) -> (r: ReviewIntention)
    ensures
        r == intention_of(key, supports_as_dependency),
        r == ReviewIntention::AsDependency ==> supports_as_dependency,
{
    match key {
        'a' if supports_as_dependency => ReviewIntention::AsDependency,
        'A' if supports_as_dependency => ReviewIntention::AsDependency,
        'd' | 'D' => ReviewIntention::Delete,
        'g' | 'G' => ReviewIntention::AssignGroup,
        'i' | 'I' => ReviewIntention::Info,
        'q' | 'Q' => ReviewIntention::Quit,
        's' | 'S' => ReviewIntention::Skip,
        _ => ReviewIntention::Invalid,
    }
}

/// The space-terminated question that asks the user for the desired action.
/// Its items depend on whether the backend supports dependent packages.
pub fn print_query(supports_as_dependency: bool) -> (r: &'static str)
    ensures
        supports_as_dependency ==> r@
            == "assign to (g)roup, (d)elete, (s)kip, (i)nfo, (a)s dependency, (q)uit? "@,
        !supports_as_dependency ==> r@ == "assign to (g)roup, (d)elete, (s)kip, (i)nfo, (q)uit? "@,
{
    if supports_as_dependency {
        "assign to (g)roup, (d)elete, (s)kip, (i)nfo, (a)s dependency, (q)uit? "
    } else {
        "assign to (g)roup, (d)elete, (s)kip, (i)nfo, (q)uit? "
    }
}

} // verus!

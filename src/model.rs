use vstd::prelude::*;

verus! {

/// A package as the package manager knows it: its name, and the repository
/// it comes from where the backend tells one apart.
#[derive(Clone, Debug, PartialEq, Eq)]
pub struct Package {
    pub name: String,
    pub repo: Option<String>,
}

/// A named set of packages that the user has declared.
#[derive(Clone, Debug, PartialEq, Eq)]
pub struct Group {
    pub name: String,
    pub packages: Vec<Package>,
}

/// The terminal decision taken for one package.
///
/// A group is referred to by its index in the list of known groups, sorted by
/// name, that the review was given: many actions may refer to one group
/// without copying it.
#[derive(Clone, Debug, PartialEq, Eq)]
pub enum ReviewAction {
    AsDependency(Package),
    Delete(Package),
    AssignGroup(Package, usize),
}

/// What the user asked for with one keystroke.
#[derive(Clone, Copy, Debug, PartialEq, Eq)]
pub enum ReviewIntention {
    AsDependency,
    AssignGroup,
    Delete,
    Info,
    Invalid,
    Skip,
    Quit,
}

} // verus!

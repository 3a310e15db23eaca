//! Review of installed packages that no group declares: one decision per
//! package, gathered per backend into strategies that run after a single
//! confirmation.

pub mod groups;
pub mod keys;
pub mod laws;
pub mod model;
pub mod order;
pub mod reviews;
pub mod session;
pub mod step;
pub mod strategy;

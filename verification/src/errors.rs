//! Who may deal with whom.

use std::collections::HashSet;
use vstd::prelude::*;

verus! {

/// A table of the roles that may deal with each other.
pub trait VLMPermissions {
    /// Whether `from` may deal with `to`.
    fn has_permission(&self, from: &'static str, to: &'static str) -> bool;

    /// Lets `from` deal with `to`, or forbids it.
    fn set_permission(&mut self, from: &'static str, to: &'static str, can_interact: bool);

    /// The roles that `role` may deal with, if the table knows the role.
    fn get_permissions(&self, role: &'static str) -> Option<HashSet<&'static str>>;

    /// Lets every role that matches `from` deal with every role that
    /// matches `to`, or forbids it.
    fn set_permission_with_regex(&mut self, from: &str, to: &str, can_interact: bool);

    /// Whether a rule made of patterns lets `from` deal with `to`.
    fn check_permission_with_regex(&self, from: &str, to: &str) -> bool;
}

} // verus!

//! Access scopes: three levels in a fixed order, and scope requirements
//! that compare only with one of their own kind.

use std::cmp::Ordering;
use vstd::prelude::*;

verus! {

/// The level of access that a caller has. `Admin` is the highest level and
/// `User` the lowest.
#[derive(Debug, Clone, Eq, Ord)]
pub enum Scope {
    User,
    Developer,
    Admin,
}

impl Scope {
    /// The height of a level: 0 for `User`, 1 for `Developer`, 2 for `Admin`.
    pub open spec fn rank(self) -> int {
        match self {
            Scope::User => 0,
            Scope::Developer => 1,
            Scope::Admin => 2,
        }
    }

    /// The level that a name stands for. Every name but `admin` and
    /// `developer` stands for `User`.
    pub open spec fn named(name: Seq<char>) -> Scope {
        if name == "admin"@ {
            Scope::Admin
        } else if name == "developer"@ {
            Scope::Developer
        } else {
            Scope::User
        }
    }

    /// The name of a level as it is written in messages.
    pub open spec fn label(self) -> Seq<char> {
        match self {
            Scope::User => "User"@,
            Scope::Developer => "Developer"@,
            Scope::Admin => "Admin"@,
        }
    }

    /// What `validate` says when `current` does not reach `required`.
    pub open spec fn denial(current: Scope, required: Scope) -> Seq<char> {
        "Permission denied: Current scope ("@ + current.label()
            + ") does not meet required scope ("@ + required.label() + ")."@
    }

    /// How two levels compare: by their rank.
    pub open spec fn compared(self, other: Scope) -> Ordering {
        if self.rank() < other.rank() {
            Ordering::Less
        } else if self.rank() == other.rank() {
            Ordering::Equal
        } else {
            Ordering::Greater
        }
    }

    /// The level of the caller, which is `Developer`.
    pub fn current() -> (scope: Self)
        ensures
            scope == Scope::Developer,
    {
        Scope::Developer
    }

    /// Succeeds where this level is at least the required one, and says
    /// which two levels were compared where it is not.
    pub fn validate(&self, required: &Scope) -> (outcome: Result<(), String>)
        ensures
            self.rank() >= required.rank() ==> outcome.is_ok(),
            self.rank() < required.rank() ==> outcome.is_err() && outcome.unwrap_err()@
                == Scope::denial(*self, *required),
    {
        if *self >= *required {
            Ok(())
        } else {
            let mut message = String::from_str("Permission denied: Current scope (");
            message.append(self.name());
            message.append(") does not meet required scope (");
            message.append(required.name());
            message.append(").");
            Err(message)
        }
    }

    /// The name of the level, as `Debug` writes it.
    fn name(&self) -> (text: &'static str)
        ensures
            text@ == self.label(),
    {
        match self {
            Scope::User => "User",
            Scope::Developer => "Developer",
            Scope::Admin => "Admin",
        }
    }

    /// Compares two levels by rank.
    pub fn cmp(&self, other: &Self) -> (order: Ordering)
        ensures
            order == self.compared(*other),
    {
        match (self, other) {
            (Scope::Admin, Scope::Admin)
            | (Scope::Developer, Scope::Developer)
            | (Scope::User, Scope::User) => Ordering::Equal,
            (Scope::Admin, _) => Ordering::Greater,
            (_, Scope::Admin) => Ordering::Less,
            (Scope::Developer, _) => Ordering::Greater,
            (_, Scope::Developer) => Ordering::Less,
        }
    }

    /// The higher of two levels.
    pub fn max(self, other: Self) -> (level: Self)
        ensures
            level == if self.rank() > other.rank() {
                self
            } else {
                other
            },
    {
        match self.cmp(&other) {
            Ordering::Greater => self,
            _ => other,
        }
    }

    /// The lower of two levels.
    pub fn min(self, other: Self) -> (level: Self)
        ensures
            level == if self.rank() <= other.rank() {
                self
            } else {
                other
            },
    {
        match self.cmp(&other) {
            Ordering::Greater => other,
            _ => self,
        }
    }

    /// The level moved into the range from `min` to `max`.
    pub fn clamp(self, min: Self, max: Self) -> (level: Self)
        requires
            min.rank() <= max.rank(),
        ensures
            level == if self.rank() < min.rank() {
                min
            } else if self.rank() > max.rank() {
                max
            } else {
                self
            },
    {
        if self < min {
            min
        } else if self > max {
            max
        } else {
            self
        }
    }
}

/// What a resource asks of a caller. Requirements of different kinds do
/// not compare with each other.
///
/// A private requirement belongs to a callback, which stands here as the
/// number that identifies it: two private requirements are equal only if
/// they belong to the same callback, and are ordered by their level alone.
#[derive(Clone)]
pub enum VLMScopeSpec {
    Public(i32),
    Private(usize, i64),
    Count(isize),
}

impl VLMScopeSpec {
    /// Whether two requirements are of the same kind.
    pub open spec fn same_kind(self, other: VLMScopeSpec) -> bool {
        match (self, other) {
            (VLMScopeSpec::Public(_), VLMScopeSpec::Public(_)) => true,
            (VLMScopeSpec::Private(_, _), VLMScopeSpec::Private(_, _)) => true,
            (VLMScopeSpec::Count(_), VLMScopeSpec::Count(_)) => true,
            _ => false,
        }
    }

    /// The number by which a requirement is ordered among its kind.
    pub open spec fn level(self) -> int {
        match self {
            VLMScopeSpec::Public(level) => level as int,
            VLMScopeSpec::Private(_, level) => level as int,
            VLMScopeSpec::Count(level) => level as int,
        }
    }
}

impl PartialEq for VLMScopeSpec {
    /// Equal kinds with equal numbers; for private requirements, of the
    /// same callback too.
    fn eq(&self, other: &Self) -> (b: bool) {
        match (self, other) {
            (VLMScopeSpec::Public(l0), VLMScopeSpec::Public(r0)) => *l0 == *r0,
            (VLMScopeSpec::Private(l0, l1), VLMScopeSpec::Private(r0, r1)) => *l0 == *r0 && *l1
                == *r1,
            (VLMScopeSpec::Count(l0), VLMScopeSpec::Count(r0)) => *l0 == *r0,
            _ => false,
        }
    }

    fn ne(&self, other: &Self) -> (b: bool) {
        !self.eq(other)
    }
}

impl vstd::std_specs::cmp::PartialEqSpecImpl for VLMScopeSpec {
    open spec fn obeys_eq_spec() -> bool {
        true
    }

    open spec fn eq_spec(&self, other: &VLMScopeSpec) -> bool {
        *self == *other
    }
}

impl PartialOrd for VLMScopeSpec {
    /// Requirements of one kind compare by their level; others do not
    /// compare.
    fn partial_cmp(&self, other: &Self) -> (order: Option<Ordering>) {
        match (self, other) {
            (VLMScopeSpec::Public(l0), VLMScopeSpec::Public(r0)) => l0.partial_cmp(r0),
            (VLMScopeSpec::Private(_, l1), VLMScopeSpec::Private(_, r1)) => l1.partial_cmp(r1),
            (VLMScopeSpec::Count(l0), VLMScopeSpec::Count(r0)) => l0.partial_cmp(r0),
            _ => None,
        }
    }

    fn lt(&self, other: &Self) -> (b: bool) {
        std::matches!(self.partial_cmp(other), Some(Ordering::Less))
    }

    fn le(&self, other: &Self) -> (b: bool) {
        std::matches!(self.partial_cmp(other), Some(Ordering::Less | Ordering::Equal))
    }

    fn gt(&self, other: &Self) -> (b: bool) {
        std::matches!(self.partial_cmp(other), Some(Ordering::Greater))
    }

    fn ge(&self, other: &Self) -> (b: bool) {
        std::matches!(self.partial_cmp(other), Some(Ordering::Greater | Ordering::Equal))
    }
}

impl vstd::std_specs::cmp::PartialOrdSpecImpl for VLMScopeSpec {
    open spec fn obeys_partial_cmp_spec() -> bool {
        true
    }

    open spec fn partial_cmp_spec(&self, other: &VLMScopeSpec) -> Option<Ordering> {
        if !self.same_kind(*other) {
            None
        } else if self.level() < other.level() {
            Some(Ordering::Less)
        } else if self.level() == other.level() {
            Some(Ordering::Equal)
        } else {
            Some(Ordering::Greater)
        }
    }
}

impl From<String> for Scope {
    /// Reads a level from its name; an unknown name gives `User`.
    fn from(scope: String) -> (level: Self) {
        if scope == String::from_str("admin") {
            Scope::Admin
        } else if scope == String::from_str("developer") {
            Scope::Developer
        } else {
            Scope::User
        }
    }
}

impl vstd::std_specs::convert::FromSpecImpl<String> for Scope {
    open spec fn obeys_from_spec() -> bool {
        true
    }

    open spec fn from_spec(scope: String) -> Scope {
        Scope::named(scope@)
    }
}

impl PartialEq for Scope {
    /// Two levels are equal when they are the same level.
    fn eq(&self, other: &Self) -> (b: bool) {
        match (self, other) {
            (Scope::Admin, Scope::Admin) => true,
            (Scope::Developer, Scope::Developer) => true,
            (Scope::User, Scope::User) => true,
            _ => false,
        }
    }
}

impl vstd::std_specs::cmp::PartialEqSpecImpl for Scope {
    open spec fn obeys_eq_spec() -> bool {
        true
    }

    open spec fn eq_spec(&self, other: &Scope) -> bool {
        *self == *other
    }
}

impl PartialOrd for Scope {
    /// Any two levels compare.
    fn partial_cmp(&self, other: &Self) -> (order: Option<Ordering>) {
        Some(self.cmp(other))
    }
}

impl vstd::std_specs::cmp::PartialOrdSpecImpl for Scope {
    open spec fn obeys_partial_cmp_spec() -> bool {
        true
    }

    open spec fn partial_cmp_spec(&self, other: &Scope) -> Option<Ordering> {
        Some(self.compared(*other))
    }
}

} // verus!

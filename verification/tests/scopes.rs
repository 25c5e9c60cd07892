use std::cmp::Ordering;
use vlm::scopes::Scope;
use vlm::scopes::VLMScopeSpec;

#[test]
fn current_scope_is_developer() {
    assert_eq!(Scope::current(), Scope::Developer);
}

#[test]
fn scope_is_read_from_its_name() {
    assert_eq!(Scope::from("admin".to_string()), Scope::Admin);
    assert_eq!(Scope::from("developer".to_string()), Scope::Developer);
    assert_eq!(Scope::from("user".to_string()), Scope::User);
}

#[test]
fn unknown_name_gives_user() {
    assert_eq!(Scope::from("root".to_string()), Scope::User);
    assert_eq!(Scope::from("Admin".to_string()), Scope::User);
    assert_eq!(Scope::from(String::new()), Scope::User);
}

#[test]
fn validate_accepts_an_equal_or_higher_scope() {
    assert_eq!(Scope::Admin.validate(&Scope::Admin), Ok(()));
    assert_eq!(Scope::Admin.validate(&Scope::Developer), Ok(()));
    assert_eq!(Scope::Admin.validate(&Scope::User), Ok(()));
    assert_eq!(Scope::Developer.validate(&Scope::Developer), Ok(()));
    assert_eq!(Scope::Developer.validate(&Scope::User), Ok(()));
    assert_eq!(Scope::User.validate(&Scope::User), Ok(()));
}

#[test]
fn validate_refuses_a_lower_scope_and_names_both() {
    assert_eq!(
        Scope::Developer.validate(&Scope::Admin),
        Err(
            "Permission denied: Current scope (Developer) does not meet required scope (Admin)."
                .to_string()
        )
    );
    assert_eq!(
        Scope::User.validate(&Scope::Developer),
        Err(
            "Permission denied: Current scope (User) does not meet required scope (Developer)."
                .to_string()
        )
    );
    let current = Scope::User;
    let required = Scope::Admin;
    assert_eq!(
        current.validate(&required),
        Err(format!(
            "Permission denied: Current scope ({:?}) does not meet required scope ({:?}).",
            current, required
        ))
    );
}

#[test]
fn scopes_are_ordered_with_admin_on_top() {
    assert!(Scope::Admin > Scope::Developer);
    assert!(Scope::Developer > Scope::User);
    assert!(Scope::Admin > Scope::User);
    assert!(Scope::User < Scope::Admin);
    assert!(Scope::Developer >= Scope::Developer);
    assert_eq!(Scope::Admin.partial_cmp(&Scope::User), Some(Ordering::Greater));
    assert_eq!(Scope::User.partial_cmp(&Scope::Developer), Some(Ordering::Less));
    assert_eq!(Scope::User.partial_cmp(&Scope::User), Some(Ordering::Equal));
}

#[test]
fn cmp_agrees_with_the_operators_and_with_ord() {
    let all = [Scope::User, Scope::Developer, Scope::Admin];
    for a in all.iter() {
        for b in all.iter() {
            assert_eq!(Scope::cmp(a, b), Ord::cmp(a, b));
            assert_eq!(Some(Scope::cmp(a, b)), a.partial_cmp(b));
            assert_eq!(Scope::cmp(a, b) == Ordering::Equal, a == b);
        }
    }
    assert_eq!(Scope::cmp(&Scope::Admin, &Scope::Developer), Ordering::Greater);
    assert_eq!(Scope::cmp(&Scope::User, &Scope::Developer), Ordering::Less);
}

#[test]
fn max_and_min_pick_the_higher_and_the_lower_scope() {
    assert_eq!(Scope::max(Scope::User, Scope::Admin), Scope::Admin);
    assert_eq!(Scope::max(Scope::Developer, Scope::User), Scope::Developer);
    assert_eq!(Scope::min(Scope::User, Scope::Admin), Scope::User);
    assert_eq!(Scope::min(Scope::Admin, Scope::Developer), Scope::Developer);
    assert_eq!(Scope::max(Scope::Admin, Scope::Admin), Scope::Admin);
}

#[test]
fn clamp_moves_a_scope_into_the_range() {
    assert_eq!(Scope::clamp(Scope::User, Scope::Developer, Scope::Admin), Scope::Developer);
    assert_eq!(Scope::clamp(Scope::Admin, Scope::User, Scope::Developer), Scope::Developer);
    assert_eq!(Scope::clamp(Scope::Developer, Scope::User, Scope::Admin), Scope::Developer);
    assert_eq!(Scope::clamp(Scope::Admin, Scope::User, Scope::User), Scope::User);
}

#[test]
fn sorting_scopes_puts_user_first() {
    let mut scopes = vec![Scope::Admin, Scope::User, Scope::Developer];
    scopes.sort();
    assert_eq!(scopes, vec![Scope::User, Scope::Developer, Scope::Admin]);
}

#[test]
fn requirements_of_one_kind_compare_by_level() {
    assert!(VLMScopeSpec::Public(1) < VLMScopeSpec::Public(2));
    assert!(VLMScopeSpec::Public(2) <= VLMScopeSpec::Public(2));
    assert!(VLMScopeSpec::Count(9) > VLMScopeSpec::Count(-9));
    assert!(VLMScopeSpec::Count(9) >= VLMScopeSpec::Count(9));
    assert!(VLMScopeSpec::Private(7, 1) < VLMScopeSpec::Private(3, 2));
    assert_eq!(
        VLMScopeSpec::Private(7, 5).partial_cmp(&VLMScopeSpec::Private(3, 5)),
        Some(Ordering::Equal)
    );
    assert_eq!(
        VLMScopeSpec::Public(3).partial_cmp(&VLMScopeSpec::Public(1)),
        Some(Ordering::Greater)
    );
}

#[test]
fn requirements_of_different_kinds_do_not_compare() {
    let public = VLMScopeSpec::Public(1);
    let count = VLMScopeSpec::Count(1);
    let private = VLMScopeSpec::Private(0, 1);
    assert_eq!(public.partial_cmp(&count), None);
    assert_eq!(count.partial_cmp(&private), None);
    assert!(!(public < count));
    assert!(!(public <= count));
    assert!(!(public > count));
    assert!(!(public >= count));
    assert!(public != count);
    assert!(private != public);
}

#[test]
fn requirements_are_equal_with_equal_kind_and_numbers() {
    assert!(VLMScopeSpec::Public(4) == VLMScopeSpec::Public(4));
    assert!(VLMScopeSpec::Public(4) != VLMScopeSpec::Public(5));
    assert!(VLMScopeSpec::Count(4) == VLMScopeSpec::Count(4));
    assert!(VLMScopeSpec::Private(1, 4) == VLMScopeSpec::Private(1, 4));
    assert!(VLMScopeSpec::Private(1, 4) != VLMScopeSpec::Private(2, 4));
    assert!(VLMScopeSpec::Private(1, 4) != VLMScopeSpec::Private(1, 5));
    let copy = VLMScopeSpec::Private(1, 4).clone();
    assert!(copy == VLMScopeSpec::Private(1, 4));
}

use slash_bot::admin::{AdminPolicy, MalformedAdmin};

#[test]
fn empty_admin_list_authorizes_everyone() {
    let policy = AdminPolicy::new(vec![]);
    assert!(policy.is_unrestricted());
    assert!(policy.is_authorized(42));
    assert!(policy.is_authorized(0));
    assert!(policy.is_authorized(u64::MAX));
}

#[test]
fn non_empty_admin_list_is_an_allow_list() {
    let policy = AdminPolicy::new(vec![1, 7, 9]);
    assert!(!policy.is_unrestricted());
    assert!(policy.is_authorized(1));
    assert!(policy.is_authorized(7));
    assert!(policy.is_authorized(9));
    assert!(!policy.is_authorized(2));
    assert!(!policy.is_authorized(0));
    assert!(!policy.is_authorized(u64::MAX));
}

#[test]
fn single_admin_admits_only_that_admin() {
    let policy = AdminPolicy::new(vec![1]);
    assert!(policy.is_authorized(1));
    for other in [0u64, 2, 10, 11, 100, u64::MAX] {
        assert!(!policy.is_authorized(other), "{other} must be refused");
    }
}

#[test]
fn repeated_admin_entries_do_not_matter() {
    let policy = AdminPolicy::new(vec![5, 5, 5]);
    assert!(policy.is_authorized(5));
    assert!(!policy.is_authorized(6));
}

#[test]
fn well_formed_entries_make_a_policy() {
    let policy = AdminPolicy::from_entries(&vec![Some(3), Some(4)]);
    assert_eq!(policy, Ok(AdminPolicy::new(vec![3, 4])));
    let policy = policy.unwrap();
    assert!(policy.is_authorized(3));
    assert!(policy.is_authorized(4));
    assert!(!policy.is_authorized(5));
}

#[test]
fn no_entries_make_the_open_policy() {
    let policy = AdminPolicy::from_entries(&vec![]).unwrap();
    assert!(policy.is_unrestricted());
    assert!(policy.is_authorized(42));
}

#[test]
fn first_malformed_entry_is_reported() {
    assert_eq!(
        AdminPolicy::from_entries(&vec![Some(3), None, Some(4), None]),
        Err(MalformedAdmin { index: 1 })
    );
    assert_eq!(AdminPolicy::from_entries(&vec![None]), Err(MalformedAdmin { index: 0 }));
    assert_eq!(
        AdminPolicy::from_entries(&vec![Some(1), Some(2), None]),
        Err(MalformedAdmin { index: 2 })
    );
}

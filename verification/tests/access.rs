use doctorate_manager::authentication::{
    check_credentials, login, login_at, passwords_match, refresh, refresh_at, secure_function,
};
use doctorate_manager::model::user::{role_in, Role, User, ALL_ROLES};

fn account(role: Option<Role>, password: Option<&str>) -> User {
    User {
        id: Some(3),
        name: "Karim".to_string(),
        email: "karim@univ.dz".to_string(),
        password: password.map(|p| p.to_string()),
        role,
        domaine: None,
        specialty: None,
    }
}

#[test]
fn admitted_role_runs_the_logic() {
    let r = secure_function(|_| true, |u| u.id, &[Role::Admin], Some(account(Some(Role::Admin), None)));
    assert_eq!(r, Some(Some(3)));
}

#[test]
fn other_role_is_turned_away() {
    let r = secure_function(|_| true, |u| u.id, &[Role::Admin], Some(account(Some(Role::CFD), None)));
    assert_eq!(r, None);
}

#[test]
fn missing_token_or_role_is_turned_away() {
    assert_eq!(secure_function(|_| true, |u| u.id, &ALL_ROLES, None), None);
    assert_eq!(secure_function(|_| true, |u| u.id, &ALL_ROLES, Some(account(None, None))), None);
}

#[test]
fn failing_check_is_turned_away() {
    let r = secure_function(|u| u.id == Some(4), |u| u.id, &ALL_ROLES, Some(account(Some(Role::Applicant), None)));
    assert_eq!(r, None);
}

#[test]
fn checks_are_skipped_when_role_fails() {
    let mut consulted = false;
    let r = secure_function(
        |_| {
            consulted = true;
            true
        },
        |u| u.id,
        &[Role::ViceDoyen],
        Some(account(Some(Role::Professor), None)),
    );
    assert_eq!(r, None);
    assert!(!consulted);
}

#[test]
fn all_roles_admit_every_role() {
    for r in ALL_ROLES {
        assert!(role_in(&ALL_ROLES, r));
        let got = secure_function(|_| true, |u| u.role, &ALL_ROLES, Some(account(Some(r), None)));
        assert_eq!(got, Some(Some(r)));
    }
    assert!(!role_in(&[], Role::Admin));
}

#[test]
fn matching_password_logs_in() {
    let submitted = account(None, Some("abc123X"));
    let stored = account(Some(Role::CFD), Some("abc123X"));
    let granted = check_credentials(&submitted, Some(stored)).expect("same password");
    assert_eq!(granted.role, Some(Role::CFD));
}

#[test]
fn wrong_or_missing_password_is_refused() {
    let submitted = account(None, Some("abc123X"));
    assert!(check_credentials(&submitted, Some(account(Some(Role::CFD), Some("abc123Y")))).is_none());
    assert!(check_credentials(&submitted, Some(account(Some(Role::CFD), None))).is_none());
    assert!(check_credentials(&submitted, None).is_none());
    let no_password = account(None, None);
    assert!(check_credentials(&no_password, Some(account(Some(Role::CFD), None))).is_some());
}

#[test]
fn optional_passwords_compare_by_content() {
    assert!(passwords_match(&None, &None));
    assert!(passwords_match(&Some("x".to_string()), &Some("x".to_string())));
    assert!(!passwords_match(&Some("x".to_string()), &None));
    assert!(!passwords_match(&Some("x".to_string()), &Some("y".to_string())));
}

#[test]
fn login_issues_a_token_without_the_password() {
    let submitted = account(None, Some("pw12345"));
    let c = login(&submitted, Some(account(Some(Role::ViceDoyen), Some("pw12345")))).expect("granted");
    assert_eq!(c.sub, "me");
    assert_eq!(c.user_data.email, "karim@univ.dz");
    assert_eq!(c.user_data.role, Some(Role::ViceDoyen));
    assert!(c.user_data.password.is_none());
    assert!(login(&submitted, Some(account(Some(Role::ViceDoyen), Some("other")))).is_none());
    assert!(login(&submitted, None).is_none());
}

#[test]
fn refresh_renews_any_account_with_a_role() {
    let c = refresh(Some(account(Some(Role::Applicant), Some("pw")))).expect("renewed");
    assert_eq!(c.user_data.id, Some(3));
    assert!(c.user_data.password.is_none());
    assert!(refresh(Some(account(None, None))).is_none());
    assert!(refresh(None).is_none());
}

#[test]
fn tokens_expire_one_lifetime_after_login_or_refresh() {
    let submitted = account(None, Some("pw12345"));
    let c = login_at(&submitted, Some(account(Some(Role::CFD), Some("pw12345"))), 5_000).unwrap();
    assert_eq!(c.exp, 905_000);
    assert!(login_at(&submitted, None, 5_000).is_none());
    let r = refresh_at(Some(account(Some(Role::CFD), None)), 1_000_000).unwrap();
    assert_eq!(r.exp, 1_900_000);
    assert!(r.user_data.password.is_none());
    assert!(refresh_at(None, 1_000_000).is_none());
}

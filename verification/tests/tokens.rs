use doctorate_manager::jwt::{check_expiry, check_expiry_at, now_millis, Claims, TOKEN_LIFETIME_MILLIS};
use doctorate_manager::model::user::{Role, User};

fn sample_user() -> User {
    User {
        id: Some(7),
        name: "Amina".to_string(),
        email: "amina@univ.dz".to_string(),
        password: Some("secret1".to_string()),
        role: Some(Role::Professor),
        domaine: Some("MI".to_string()),
        specialty: Some("Informatique".to_string()),
    }
}

#[test]
fn issued_claims_drop_the_password() {
    let c = Claims::issued_at(sample_user(), 1_000);
    assert_eq!(c.sub, "me");
    assert_eq!(c.exp, 1_000 + 900_000);
    assert_eq!(c.user_data.id, Some(7));
    assert_eq!(c.user_data.email, "amina@univ.dz");
    assert_eq!(c.user_data.name, "Amina");
    assert_eq!(c.user_data.role, Some(Role::Professor));
    assert_eq!(c.user_data.domaine.as_deref(), Some("MI"));
    assert_eq!(c.user_data.specialty.as_deref(), Some("Informatique"));
    assert!(c.user_data.password.is_none());
}

#[test]
fn token_lifetime_is_fifteen_minutes() {
    assert_eq!(TOKEN_LIFETIME_MILLIS, 15 * 60 * 1000);
    let issued = 1_680_000_000_000u64;
    let at_issue = check_expiry_at(Claims::issued_at(sample_user(), issued), issued);
    assert_eq!(at_issue.unwrap().email, "amina@univ.dz");
    let last = check_expiry_at(Claims::issued_at(sample_user(), issued), issued + 900_000);
    assert!(last.unwrap().password.is_none());
    let late = check_expiry_at(Claims::issued_at(sample_user(), issued), issued + 900_001);
    assert!(late.is_none());
}

#[test]
fn fresh_claims_are_accepted_now() {
    let before = now_millis();
    let c = Claims::new(sample_user());
    assert!(c.exp >= before + 900_000);
    assert!(c.exp <= now_millis() + 900_000);
    let granted = check_expiry(c).expect("a fresh token is accepted");
    assert_eq!(granted.id, Some(7));
}

#[test]
fn old_claims_are_refused_now() {
    let c = Claims::issued_at(sample_user(), 0);
    assert!(check_expiry(c).is_none());
}

#[test]
fn clock_reads_after_2023() {
    // 2023-01-01T00:00:00Z in milliseconds.
    assert!(now_millis() > 1_672_531_200_000);
}

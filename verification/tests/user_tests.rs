use ecommerce::user::User;
use ecommerce::user::UserError;

fn sample_user() -> User {
    User::new(
        1,
        String::from("John Doe"),
        String::from("john.doe@example.com"),
        String::from("123 Main St, City, Country"),
    )
    .expect("a valid user")
}

#[test]
fn create_valid_user() {
    let u = sample_user();
    assert_eq!(u.id, 1);
    assert_eq!(u.name, "John Doe");
    assert_eq!(u.email, "john.doe@example.com");
    assert_eq!(u.address, "123 Main St, City, Country");
}

#[test]
fn email_without_at_sign_is_rejected() {
    let r = User::new(
        1,
        String::from("Jane"),
        String::from("noat.example.com"),
        String::from("1 Road"),
    );
    assert!(matches!(r, Err(UserError::InvalidEmail)));
}

#[test]
fn blank_name_is_rejected() {
    let r = User::new(
        1,
        String::from("   "),
        String::from("a@b.com"),
        String::from("1 Road"),
    );
    assert!(matches!(r, Err(UserError::EmptyName)));
}

#[test]
fn blank_address_is_rejected() {
    let r = User::new(
        1,
        String::from("Jane"),
        String::from("a@b.com"),
        String::from(" \t "),
    );
    assert!(matches!(r, Err(UserError::EmptyAddress)));
}

#[test]
fn name_check_comes_before_address_and_email() {
    let r = User::new(1, String::from(" "), String::from("bad"), String::from(""));
    assert!(matches!(r, Err(UserError::EmptyName)));
}

#[test]
fn stored_fields_are_trimmed_and_email_lowercased() {
    let u = User::new(
        2,
        String::from("  John  "),
        String::from("  John.Doe@Example.COM "),
        String::from(" 5 High St "),
    )
    .expect("a valid user");
    assert_eq!(u.name, "John");
    assert_eq!(u.email, "john.doe@example.com");
    assert_eq!(u.address, "5 High St");
}

#[test]
fn email_validation_edges() {
    assert!(User::is_valid_email("a@b"));
    assert!(User::is_valid_email(" a@b "));
    assert!(!User::is_valid_email("@b"));
    assert!(!User::is_valid_email("a@"));
    assert!(!User::is_valid_email("a@b@c"));
    assert!(!User::is_valid_email("ab.c"));
    assert!(!User::is_valid_email(""));
    assert!(!User::is_valid_email("@"));
}

#[test]
fn update_address_replaces_the_trimmed_value() {
    let mut u = sample_user();
    assert!(u.update_address(String::from("  9 New Lane ")).is_ok());
    assert_eq!(u.address, "9 New Lane");
}

#[test]
fn failed_address_update_keeps_the_prior_value() {
    let mut u = sample_user();
    let r = u.update_address(String::from("   "));
    assert!(matches!(r, Err(UserError::EmptyAddress)));
    assert_eq!(u.address, "123 Main St, City, Country");
}

#[test]
fn update_email_lowercases_and_trims() {
    let mut u = sample_user();
    assert!(u.update_email(String::from(" New@Example.COM ")).is_ok());
    assert_eq!(u.email, "new@example.com");
}

#[test]
fn failed_email_update_keeps_the_prior_value() {
    let mut u = sample_user();
    let r = u.update_email(String::from("not-an-email"));
    assert!(matches!(r, Err(UserError::InvalidEmail)));
    assert_eq!(u.email, "john.doe@example.com");
}

#[test]
fn unchecked_constructor_only_lowercases_the_email() {
    let u = User::new_unchecked(
        3,
        String::from("  raw  "),
        String::from("RAW@EXAMPLE.COM"),
        String::from(""),
    );
    assert_eq!(u.name, "  raw  ");
    assert_eq!(u.email, "raw@example.com");
    assert_eq!(u.address, "");
}

#[test]
fn user_renders_as_one_line() {
    let u = sample_user();
    assert_eq!(
        u.to_string(),
        "User John Doe (ID: 1) - Email: john.doe@example.com, Address: 123 Main St, City, Country"
    );
}

#[test]
fn user_error_messages() {
    assert_eq!(UserError::InvalidEmail.message(), "Invalid email format");
    assert_eq!(UserError::EmptyName.message(), "Name cannot be empty");
    assert_eq!(UserError::EmptyAddress.message(), "Address cannot be empty");
}

use gh_activity::username::{events_url, validate_username};

fn refused(value: &str) -> bool {
    validate_username(value) == Err("Invalid GitHub username".to_string())
}

#[test]
fn accepts_plain_name() {
    assert_eq!(validate_username("octocat"), Ok("octocat".to_string()));
}

#[test]
fn accepts_letters_digits_and_single_dashes() {
    assert_eq!(validate_username("a-b-c9"), Ok("a-b-c9".to_string()));
    assert_eq!(validate_username("X"), Ok("X".to_string()));
}

#[test]
fn accepts_thirty_nine_characters() {
    let name = "a".repeat(39);
    assert_eq!(validate_username(&name), Ok(name.clone()));
}

#[test]
fn refuses_forty_characters() {
    assert!(refused(&"a".repeat(40)));
}

#[test]
fn refuses_empty_name() {
    assert!(refused(""));
}

#[test]
fn refuses_dash_at_either_end() {
    assert!(refused("-abc"));
    assert!(refused("abc-"));
    assert!(refused("-"));
}

#[test]
fn refuses_double_dash() {
    assert!(refused("a--b"));
}

#[test]
fn refuses_other_characters() {
    assert!(refused("a_b"));
    assert!(refused("a b"));
    assert!(refused("j\u{fc}rgen"));
    assert!(refused("a.b"));
}

#[test]
fn accepted_name_is_accepted_again() {
    let first = validate_username("dev-ops42").unwrap();
    assert_eq!(validate_username(&first), Ok(first.clone()));
}

#[test]
fn builds_events_address() {
    assert_eq!(events_url("octocat"), "https://api.github.com/users/octocat/events");
}

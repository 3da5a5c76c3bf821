use sherlock::utils::create_username_variants;

#[test]
fn test_create_username_variants() {
    let usernames = vec![
        String::from("user{?}name"),
        String::from("another{?}user"),
        String::from("test{?}user"),
    ];
    let expected = vec![
        "user_name",
        "user-name",
        "user.name",
        "another_user",
        "another-user",
        "another.user",
        "test_user",
        "test-user",
        "test.user",
    ];
    let result = create_username_variants(&usernames);
    assert_eq!(result, expected);
}

#[test]
fn test_create_username_variants_no_symbol() {
    let usernames = vec![
        String::from("username"),
        String::from("anotheruser"),
        String::from("testuser"),
    ];
    let expected = vec!["username", "anotheruser", "testuser"];
    let result = create_username_variants(&usernames);
    assert_eq!(result, expected);
}

#[test]
fn test_create_username_variants_empty() {
    let usernames: Vec<String> = vec![];
    let expected: Vec<String> = vec![];
    let result = create_username_variants(&usernames);
    assert_eq!(result, expected);
}

#[test]
fn variants_replace_every_marker() {
    let usernames = vec![String::from("a{?}b{?}c")];
    let result = create_username_variants(&usernames);
    assert_eq!(result, vec!["a_b_c", "a-b-c", "a.b.c"]);
}

use sherlock::interpolate::Interpolatable;

#[test]
fn interpolate_replaces_both_placeholders() {
    let template = String::from("{}-{}");
    assert_eq!(template.interpolate("bob"), "bob-bob");
}

#[test]
fn interpolate_without_placeholder_keeps_text() {
    let template = String::from("https://example.com/profile");
    assert_eq!(template.interpolate("bob"), "https://example.com/profile");
}

#[test]
fn interpolate_string_example() {
    let string = "value is '{}'".to_string();
    assert_eq!(string.interpolate("test"), "value is 'test'");
}

#[test]
fn interpolate_vec_elementwise() {
    let v = vec!["value is '{}'".to_string(), "{}!".to_string(), "none".to_string()];
    let r = v.interpolate("test");
    assert_eq!(r, vec!["value is 'test'", "test!", "none"]);
}

#[test]
fn interpolate_pairs_keep_keys() {
    let v = vec![
        ("X-User".to_string(), "{}".to_string()),
        ("key{}".to_string(), "value is '{}'".to_string()),
    ];
    let r = v.interpolate("test");
    assert_eq!(r[0], ("X-User".to_string(), "test".to_string()));
    assert_eq!(r[1], ("key{}".to_string(), "value is 'test'".to_string()));
}

use repost::text::build_repost_body;
use repost::text::build_repost_title;
use repost::text::integration_branch;
use repost::text::publish_branch;
use repost::text::render_decimal;

#[test]
fn renders_zero() {
    assert_eq!(render_decimal(0), "0");
}

#[test]
fn renders_single_digit() {
    assert_eq!(render_decimal(7), "7");
}

#[test]
fn renders_multi_digit() {
    assert_eq!(render_decimal(42), "42");
    assert_eq!(render_decimal(100), "100");
    assert_eq!(render_decimal(90210), "90210");
}

#[test]
fn renders_largest_number() {
    assert_eq!(render_decimal(u64::MAX), "18446744073709551615");
}

#[test]
fn publish_branch_is_deterministic_per_number() {
    assert_eq!(publish_branch(42), "repost-pr-42");
    assert_eq!(publish_branch(42), publish_branch(42));
    assert_ne!(publish_branch(42), publish_branch(43));
}

#[test]
fn integration_branch_differs_from_publish_branch() {
    assert_eq!(integration_branch(42), "repost-integration-42");
    assert_ne!(integration_branch(42), publish_branch(42));
}

#[test]
fn repost_title_prefixes_original() {
    let title = build_repost_title(&String::from("Add feature X"));
    assert_eq!(title, "[Repost] Add feature X");
}

#[test]
fn repost_body_carries_provenance() {
    let body = build_repost_body(&String::from("alice"), 42, &String::from("Original body"));
    assert_eq!(
        body,
        "This is a reposted PR originally created by @alice in pull request #42.\n\nOriginal body"
    );
    assert!(body.starts_with("This is a reposted PR originally created by @alice"));
    assert!(body.contains("42"));
    assert!(body.contains("Original body"));
}

#[test]
fn repost_body_keeps_empty_original_body() {
    let body = build_repost_body(&String::from("bob"), 9, &String::new());
    assert_eq!(body, "This is a reposted PR originally created by @bob in pull request #9.\n\n");
}

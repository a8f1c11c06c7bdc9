use clonetool::model::SyncTarget;
use clonetool::provider::{api_url, parse_provider, Provider};
use clonetool::validate::{validate_path, validate_username, ValidationError};

#[test]
fn accepts_plain_usernames() {
    assert!(validate_username("alice").is_ok());
    assert!(validate_username("Alice-B_9").is_ok());
    assert!(validate_username("0").is_ok());
}

#[test]
fn rejects_empty_username() {
    assert_eq!(validate_username(""), Err(ValidationError::InvalidUsername));
}

#[test]
fn rejects_username_with_bad_characters() {
    assert_eq!(validate_username("a b"), Err(ValidationError::InvalidUsername));
    assert_eq!(validate_username("a/b"), Err(ValidationError::InvalidUsername));
    assert_eq!(validate_username("a.b"), Err(ValidationError::InvalidUsername));
    assert_eq!(validate_username("héllo"), Err(ValidationError::InvalidUsername));
}

#[test]
fn accepts_absolute_path() {
    assert!(validate_path("/srv/mirrors").is_ok());
    assert!(validate_path("/").is_ok());
}

#[test]
fn rejects_relative_or_empty_path() {
    assert_eq!(validate_path("mirrors"), Err(ValidationError::PathNotAbsolute));
    assert_eq!(validate_path("./mirrors"), Err(ValidationError::PathNotAbsolute));
    assert_eq!(validate_path(""), Err(ValidationError::PathNotAbsolute));
}

#[test]
fn resolves_known_providers() {
    assert_eq!(parse_provider("github"), Ok(Provider::Github));
    assert_eq!(parse_provider("gitlab"), Ok(Provider::Gitlab));
}

#[test]
fn rejects_unknown_provider() {
    assert_eq!(parse_provider("bitbucket"), Err(ValidationError::InvalidProvider));
    assert_eq!(parse_provider(""), Err(ValidationError::InvalidProvider));
    assert_eq!(parse_provider("GitHub"), Err(ValidationError::InvalidProvider));
}

#[test]
fn builds_github_listing_url() {
    assert_eq!(
        api_url(Provider::Github, "octo"),
        "https://api.github.com/users/octo/repos?per_page=1000"
    );
}

#[test]
fn builds_gitlab_listing_url() {
    assert_eq!(
        api_url(Provider::Gitlab, "octo"),
        "https://gitlab.com/api/v4/users/octo/projects?per_page=1000"
    );
}

#[test]
fn target_holds_destination_subdirectory() {
    let t = SyncTarget::new("/srv/mirrors", "alice").unwrap();
    assert_eq!(t.name, "alice");
    assert_eq!(t.dir, "/srv/mirrors/alice");
}

#[test]
fn target_rejects_invalid_name() {
    assert!(SyncTarget::new("/srv/mirrors", "a b").is_err());
}

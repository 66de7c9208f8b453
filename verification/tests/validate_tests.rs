use cvue::error::ActionError;
use cvue::validate::{add_gh_auth, check_name, normalize_gh_url};

#[test]
fn normalize_shorthand_basic() {
    assert_eq!(
        normalize_gh_url("vuejs/core").unwrap(),
        "https://github.com/vuejs/core.git"
    );
}

#[test]
fn normalize_shorthand_with_dots_and_hyphens() {
    assert_eq!(
        normalize_gh_url("my-org.name/some_repo-v2.0").unwrap(),
        "https://github.com/my-org.name/some_repo-v2.0.git"
    );
}

#[test]
fn normalize_github_url_passes_through() {
    assert_eq!(
        normalize_gh_url("https://github.com/vuejs/core").unwrap(),
        "https://github.com/vuejs/core"
    );
}

#[test]
fn normalize_rejects_other_host() {
    assert_eq!(
        normalize_gh_url("https://gitlab.com/vuejs/core"),
        Err(ActionError::InvalidGithubUrl)
    );
}

#[test]
fn normalize_rejects_plain_word() {
    assert_eq!(normalize_gh_url("justaword"), Err(ActionError::InvalidGithubUrl));
}

#[test]
fn normalize_rejects_empty_segments() {
    assert_eq!(normalize_gh_url("/name"), Err(ActionError::InvalidGithubUrl));
    assert_eq!(normalize_gh_url("owner/"), Err(ActionError::InvalidGithubUrl));
    assert_eq!(normalize_gh_url("/"), Err(ActionError::InvalidGithubUrl));
}

#[test]
fn normalize_rejects_two_slashes_without_host() {
    assert_eq!(normalize_gh_url("a/b/c"), Err(ActionError::InvalidGithubUrl));
}

#[test]
fn normalize_rejects_bad_segment_char() {
    assert_eq!(normalize_gh_url("own er/name"), Err(ActionError::InvalidGithubUrl));
}

#[test]
fn add_auth_without_token_is_identity() {
    let url = "https://github.com/vuejs/core";
    assert_eq!(add_gh_auth(url, None).unwrap(), url);
}

#[test]
fn add_auth_without_token_keeps_odd_urls() {
    // Idempotent pass-through even when the URL already carries userinfo.
    let url = "https://tok@github.com/vuejs/core.git";
    assert_eq!(add_gh_auth(url, None).unwrap(), url);
}

#[test]
fn add_auth_injects_token_and_git_suffix() {
    assert_eq!(
        add_gh_auth("https://github.com/vuejs/core", Some("SECRET-REDACTED")).unwrap(),
        "https://SECRET-REDACTED@github.com/vuejs/core.git"
    );
}

#[test]
fn add_auth_keeps_existing_git_suffix() {
    assert_eq!(
        add_gh_auth("https://github.com/vuejs/core.git", Some("t0k")).unwrap(),
        "https://t0k@github.com/vuejs/core.git"
    );
}

#[test]
fn add_auth_rejects_url_with_credentials() {
    assert_eq!(
        add_gh_auth("https://old@github.com/vuejs/core", Some("new")),
        Err(ActionError::UrlHasCredentials)
    );
}

#[test]
fn add_auth_rejects_non_https_scheme() {
    assert_eq!(
        add_gh_auth("http://github.com/vuejs/core", Some("tok")),
        Err(ActionError::UrlHasCredentials)
    );
}

#[test]
fn check_name_rejects_empty() {
    assert_eq!(check_name(""), Err(ActionError::EmptyName));
}

#[test]
fn check_name_rejects_long_name() {
    let long: String = std::iter::repeat('a').take(300).collect();
    assert_eq!(check_name(&long), Err(ActionError::NameTooLong));
}

#[test]
fn check_name_accepts_255_chars() {
    let edge: String = std::iter::repeat('a').take(255).collect();
    assert_eq!(check_name(&edge), Ok(()));
}

#[test]
fn check_name_rejects_slash() {
    assert_eq!(check_name("a/b"), Err(ActionError::NameHasInvalidChar));
}

#[test]
fn check_name_rejects_each_forbidden_char() {
    for c in ['<', '>', ':', '"', '|', '?', '*', '\\', '/'] {
        let name = format!("ab{}cd", c);
        assert_eq!(check_name(&name), Err(ActionError::NameHasInvalidChar));
    }
}

#[test]
fn check_name_rejects_reserved_names() {
    assert_eq!(check_name("con"), Err(ActionError::NameReserved));
    assert_eq!(check_name("CON"), Err(ActionError::NameReserved));
    assert_eq!(check_name("Com5"), Err(ActionError::NameReserved));
    assert_eq!(check_name("lpt9"), Err(ActionError::NameReserved));
    assert_eq!(check_name("AUX"), Err(ActionError::NameReserved));
}

#[test]
fn check_name_accepts_ordinary_names() {
    assert_eq!(check_name("my-app"), Ok(()));
    assert_eq!(check_name("console"), Ok(()));
    assert_eq!(check_name("com10"), Ok(()));
}

#[test]
fn error_messages_are_specific() {
    assert_eq!(ActionError::EmptyName.message(), "project name must not be empty");
    assert_eq!(ActionError::InvalidGithubUrl.message(), "invalid GitHub URL");
    assert_eq!(
        ActionError::UrlHasCredentials.message(),
        "URL already contains credentials"
    );
    assert_eq!(
        ActionError::NoDefaultTemplate.message(),
        "no default template configured"
    );
}

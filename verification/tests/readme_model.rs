//! Tests of the README model: URL qualification, the repository path
//! grammar, link classification, and metadata interpretation.

use repo_icons::dom::ReadmeDoc;
use repo_icons::image::ProjectLink;
use repo_icons::metadata::{classify_response, normalize_homepage, ApiError, ResponseFields};
use repo_icons::readme::{Readme, ReadmeError, RepoRef};

fn b(s: &str) -> Vec<u8> {
    s.as_bytes().to_vec()
}

fn plain_readme(owner: &str, repo: &str, homepage: Option<&str>) -> Readme {
    Readme::new(
        &b(owner),
        &b(repo),
        ReadmeDoc { elements: Vec::new(), images: Vec::new() },
        false,
        &b("main"),
        homepage.map(b),
        None,
        Vec::new(),
    )
}

#[test]
fn qualify_relative_path() {
    let readme = plain_readme("owner", "repo", None);
    let out = readme.qualify_url(&b("assets/logo.png")).unwrap();
    assert_eq!(
        out,
        b("https://github.com/owner/repo/raw/main/assets/logo.png")
    );
}

#[test]
fn qualify_rooted_path_stays_in_repo() {
    let readme = plain_readme("owner", "repo", None);
    let out = readme.qualify_url(&b("/assets/logo.png")).unwrap();
    assert_eq!(
        out,
        b("https://github.com/owner/repo/raw/main/assets/logo.png")
    );
}

#[test]
fn qualify_absolute_url_passes_through() {
    let readme = plain_readme("owner", "repo", None);
    let out = readme.qualify_url(&b("https://example.com/x.png")).unwrap();
    assert_eq!(out, b("https://example.com/x.png"));
}

#[test]
fn qualify_unresolvable_is_error() {
    let readme = plain_readme("owner", "repo", None);
    let err = readme.qualify_url(&b("https://")).unwrap_err();
    assert_eq!(err, ReadmeError::UrlResolutionFailed);
}

#[test]
fn branch_and_path_from_github_blob_url() {
    let readme = plain_readme("owner", "repo", None);
    let got = readme
        .get_branch_and_path(&b("https://github.com/owner/repo/blob/main/assets/logo.png"))
        .unwrap();
    assert_eq!(got.0, b("main"));
    assert_eq!(got.1, b("assets/logo.png"));
}

#[test]
fn branch_and_path_from_raw_url_matches_blob_form() {
    let readme = plain_readme("owner", "repo", None);
    let got = readme
        .get_branch_and_path(&b("https://raw.githubusercontent.com/owner/repo/main/assets/logo.png"))
        .unwrap();
    assert_eq!(got.0, b("main"));
    assert_eq!(got.1, b("assets/logo.png"));
}

#[test]
fn branch_and_path_is_case_insensitive_on_identity() {
    let readme = plain_readme("Owner", "Repo", None);
    let got = readme
        .get_branch_and_path(&b("https://github.com/OWNER/REPO/blob/dev/logo.png"))
        .unwrap();
    assert_eq!(got.0, b("dev"));
    assert_eq!(got.1, b("logo.png"));
}

#[test]
fn branch_and_path_rejects_other_repository() {
    let readme = plain_readme("owner", "repo", None);
    assert!(readme
        .get_branch_and_path(&b("https://github.com/somebody/else/blob/main/logo.png"))
        .is_none());
}

#[test]
fn branch_and_path_accepts_renamed_repository_alias() {
    let mut readme = plain_readme("owner", "repo", None);
    readme.aliases.push(RepoRef { owner: b("oldowner"), repo: b("oldrepo") });
    let got = readme
        .get_branch_and_path(&b("https://github.com/OldOwner/OldRepo/blob/main/logo.png"))
        .unwrap();
    assert_eq!(got.0, b("main"));
}

#[test]
fn branch_and_path_rejects_unknown_domain_and_short_paths() {
    let readme = plain_readme("owner", "repo", None);
    assert!(readme
        .get_branch_and_path(&b("https://gitlab.com/owner/repo/blob/main/logo.png"))
        .is_none());
    assert!(readme
        .get_branch_and_path(&b("https://github.com/owner/repo/blob/main"))
        .is_none());
    assert!(readme
        .get_branch_and_path(&b("https://raw.githubusercontent.com/owner/repo/main"))
        .is_none());
}

#[test]
fn link_to_pages_root_is_website() {
    let readme = plain_readme("owner", "repo", None);
    let got = readme.is_link_to_project(&b("https://owner.github.io/"));
    assert_eq!(got, Some(ProjectLink::Website));
}

#[test]
fn link_to_pages_of_same_repo_is_website() {
    let readme = plain_readme("owner", "repo", None);
    let got = readme.is_link_to_project(&b("https://owner.github.io/repo"));
    assert_eq!(got, Some(ProjectLink::Website));
}

#[test]
fn link_to_foreign_pages_is_not_project() {
    let readme = plain_readme("owner", "repo", None);
    let got = readme.is_link_to_project(&b("https://stranger.github.io/"));
    assert_eq!(got, None);
}

#[test]
fn link_to_homepage_domain_is_website() {
    let readme = plain_readme("owner", "repo", Some("https://widgets.example.org/"));
    let got = readme.is_link_to_project(&b("https://widgets.example.org/docs"));
    assert_eq!(got, Some(ProjectLink::Website));
}

#[test]
fn link_into_repository_is_repo() {
    let readme = plain_readme("owner", "repo", None);
    let got = readme.is_link_to_project(&b("https://github.com/owner/repo/blob/main/README.md"));
    assert_eq!(got, Some(ProjectLink::Repo));
}

#[test]
fn unrelated_link_is_no_project_link() {
    let readme = plain_readme("owner", "repo", None);
    assert_eq!(readme.is_link_to_project(&b("https://example.com/")), None);
}

#[test]
fn homepage_without_scheme_gains_one() {
    let got = normalize_homepage(Some(b("example.com"))).unwrap();
    assert_eq!(got, b("http://example.com/"));
}

#[test]
fn empty_homepage_is_dropped() {
    assert!(normalize_homepage(Some(b(""))).is_none());
    assert!(normalize_homepage(None).is_none());
}

#[test]
fn response_with_repo_fields_is_repository() {
    let meta = classify_response(ResponseFields {
        owner: Some(b("Owner")),
        name: Some(b("Repo")),
        default_branch: Some(b("main")),
        private: Some(true),
        homepage: Some(b("example.com")),
        message: None,
    })
    .unwrap();
    assert_eq!(meta.owner, b("Owner"));
    assert_eq!(meta.default_branch, b("main"));
    assert!(meta.private);
    assert_eq!(meta.homepage.unwrap(), b("http://example.com/"));
}

#[test]
fn response_with_message_is_api_error() {
    let err = classify_response(ResponseFields {
        owner: None,
        name: None,
        default_branch: None,
        private: None,
        homepage: None,
        message: Some(b("Not Found")),
    })
    .unwrap_err();
    match err {
        ApiError::Message(msg) => assert_eq!(msg, b("Not Found")),
        ApiError::MalformedResponse => panic!("expected the remote message"),
    }
}

#[test]
fn response_with_neither_answer_is_malformed() {
    let err = classify_response(ResponseFields {
        owner: Some(b("Owner")),
        name: None,
        default_branch: None,
        private: None,
        homepage: None,
        message: None,
    })
    .unwrap_err();
    assert!(matches!(err, ApiError::MalformedResponse));
}

#[test]
fn homepage_check_outranks_the_repository_check() {
    // A homepage on github.com makes a repository URL a website link: the
    // homepage arm is checked before the repository-path arm.
    let readme = plain_readme("owner", "repo", Some("https://github.com/owner/repo"));
    let got = readme.is_link_to_project(&b("https://github.com/owner/repo/blob/main/README.md"));
    assert_eq!(got, Some(ProjectLink::Website));
}

use upstream_metadata::{
    canonical_git_path, canonical_git_repo_url, convert_cvs_list_to_str, drop_vcs_in_scheme,
    find_public_repo_url, find_secure_repo_url, fixup_broken_git_details,
    fixup_rcp_style_git_repo_url, https_form, is_https_host, is_known_gitlab_host,
    is_secure_scheme, public_location, rcp_location_to_ssh, scheme_text, strip_vcs_scheme,
    UpstreamError,
};

#[test]
fn strip_vcs_scheme_scenario() {
    assert_eq!(
        strip_vcs_scheme("vcs+https://example.org/repo.git"),
        Some("https://example.org/repo.git".to_string())
    );
    assert_eq!(
        drop_vcs_in_scheme("vcs+https://example.org/repo.git").unwrap(),
        "https://example.org/repo.git"
    );
}

#[test]
fn drop_vcs_in_scheme_cases() {
    assert_eq!(drop_vcs_in_scheme("git+http://example.org/r").unwrap(), "http://example.org/r");
    assert_eq!(drop_vcs_in_scheme("https://example.org/r").unwrap(), "https://example.org/r");
    assert_eq!(drop_vcs_in_scheme("svn+ssh://example.org/r").unwrap(), "svn+ssh://example.org/r");
    assert!(matches!(drop_vcs_in_scheme("no url"), Err(UpstreamError::InvalidUrl(_))));
    assert_eq!(strip_vcs_scheme("+https://x/"), None);
    assert_eq!(scheme_text("git+ssh://x/"), Some("git+ssh".to_string()));
}

#[test]
fn rcp_shorthand_scenario() {
    assert_eq!(
        fixup_rcp_style_git_repo_url("git@github.com:user/repo.git"),
        "ssh://git@github.com/user/repo.git"
    );
    assert_eq!(
        rcp_location_to_ssh("git@github.com:user/repo.git"),
        Some("ssh://git@github.com/user/repo.git".to_string())
    );
}

#[test]
fn rcp_other_forms() {
    assert_eq!(rcp_location_to_ssh("host:/srv/git/x"), Some("ssh://host/srv/git/x".to_string()));
    assert_eq!(rcp_location_to_ssh("https://example.org/x"), None);
    assert_eq!(rcp_location_to_ssh("C:x"), None);
    assert_eq!(rcp_location_to_ssh("a/b:c"), None);
    assert_eq!(fixup_rcp_style_git_repo_url("https://example.org/x"), "https://example.org/x");
}

#[test]
fn unresolvable_host_without_network_is_unchanged() {
    assert_eq!(
        canonical_git_repo_url("https://unresolvable.invalid/foo/bar", None).unwrap(),
        "https://unresolvable.invalid/foo/bar"
    );
}

#[test]
fn canonical_git_urls() {
    assert_eq!(
        canonical_git_repo_url("https://github.com/jelmer/dulwich", None).unwrap(),
        "https://github.com/jelmer/dulwich.git"
    );
    assert_eq!(
        canonical_git_repo_url("https://github.com/jelmer/dulwich.git", None).unwrap(),
        "https://github.com/jelmer/dulwich.git"
    );
    assert_eq!(
        canonical_git_repo_url("https://salsa.debian.org/jelmer/x", None).unwrap(),
        "https://salsa.debian.org/jelmer/x.git"
    );
    assert_eq!(
        canonical_git_repo_url("https://git.example.org/x", Some(true)).unwrap(),
        "https://git.example.org/x.git"
    );
    assert!(matches!(canonical_git_repo_url("nope", None), Err(UpstreamError::InvalidUrl(_))));
    assert_eq!(
        canonical_git_path(&Some("github.com".to_string()), &Some("/a/b".to_string()), None),
        Some("/a/b.git".to_string())
    );
    assert_eq!(
        canonical_git_path(&Some("example.com".to_string()), &Some("/a/b".to_string()), None),
        None
    );
    assert!(is_known_gitlab_host("gitlab.gnome.org"));
    assert!(!is_known_gitlab_host("github.com"));
}

#[test]
fn public_repo_urls() {
    assert_eq!(
        find_public_repo_url("git@github.com:user/repo.git", None),
        Some("https://github.com/user/repo.git".to_string())
    );
    assert_eq!(
        find_public_repo_url("https://github.com/user/repo", None),
        Some("https://github.com/user/repo".to_string())
    );
    assert_eq!(
        find_public_repo_url("ssh://git@salsa.debian.org/user/repo", None),
        Some("https://salsa.debian.org/user/repo".to_string())
    );
    assert_eq!(find_public_repo_url("https://example.org/user/repo", None), None);
    assert_eq!(
        public_location(
            "x",
            &Some("ssh".to_string()),
            &Some("github.com".to_string()),
            &Some("/u/r".to_string()),
            None
        ),
        Some("https://github.com/u/r".to_string())
    );
}

#[test]
fn secure_repo_urls() {
    assert_eq!(
        find_secure_repo_url("http://github.com/user/repo".to_string(), None, false).unwrap(),
        Some("https://github.com/user/repo".to_string())
    );
    assert_eq!(
        find_secure_repo_url("ssh://example.org/repo".to_string(), None, false).unwrap(),
        Some("ssh://example.org/repo".to_string())
    );
    assert_eq!(find_secure_repo_url("http://example.org/repo".to_string(), None, false).unwrap(), None);
    assert_eq!(
        find_secure_repo_url("http://example.org/repo".to_string(), None, true).unwrap(),
        Some("https://example.org/repo".to_string())
    );
    assert!(matches!(
        find_secure_repo_url("not a url".to_string(), None, true),
        Err(UpstreamError::InvalidUrl(_))
    ));
    assert!(is_secure_scheme("svn+ssh"));
    assert!(!is_secure_scheme("http"));
    assert!(is_https_host(&Some("code.launchpad.net".to_string()), None));
    assert!(!is_https_host(&None, Some(true)));
    assert_eq!(https_form("git://example.org/x"), "https://example.org/x");
}

#[test]
fn cvs_list_collapses() {
    assert_eq!(
        convert_cvs_list_to_str(&vec![
            ":pserver:anonymous@cvs.example.org:/cvsroot/proj".to_string(),
            "proj".to_string()
        ]),
        Some("cvs+pserver://anonymous@cvs.example.org/cvsroot/proj#proj".to_string())
    );
    assert_eq!(
        convert_cvs_list_to_str(&vec![":extssh:user@host:/r".to_string(), "m".to_string()]),
        Some("cvs+extssh://user@host/r#m".to_string())
    );
    assert_eq!(convert_cvs_list_to_str(&vec!["https://x/".to_string(), "m".to_string()]), None);
    assert_eq!(convert_cvs_list_to_str(&vec![":pserver:host".to_string(), "m".to_string()]), None);
    assert_eq!(convert_cvs_list_to_str(&vec![":pserver:a@b:/c".to_string()]), None);
}

#[test]
fn broken_git_details_are_fixed() {
    assert_eq!(
        fixup_broken_git_details("git://github.com/user/repo -b main", None, None),
        ("https://github.com/user/repo".to_string(), Some("main".to_string()), None)
    );
    assert_eq!(
        fixup_broken_git_details("https://example.org/r -b dev", Some("stable"), Some("sub")),
        ("https://example.org/r".to_string(), Some("stable".to_string()), Some("sub".to_string()))
    );
    assert_eq!(
        fixup_broken_git_details("http://github.com/a/b", None, None),
        ("https://github.com/a/b".to_string(), None, None)
    );
}

#[test]
fn parsed_form_is_normalised() {
    assert_eq!(canonical_git_repo_url("HTTPS://Example.ORG", None).unwrap(), "HTTPS://Example.ORG");
    assert_eq!(
        canonical_git_repo_url("HTTPS://GitHub.com/a/b", None).unwrap(),
        "https://github.com/a/b.git"
    );
    assert_eq!(drop_vcs_in_scheme("git+https://Example.ORG/a").unwrap(), "https://example.org/a");
}

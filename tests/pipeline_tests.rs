use upstream_metadata::{
    apply_check, check_upstream_metadata, extend_upstream_metadata, filter_by_certainty,
    fix_summary, fix_upstream_metadata, guess_upstream_metadata, guess_upstream_metadata_items,
    sanitize_repository, Certainty, CheckOutcome, Field, UpstreamDatum, UpstreamError,
    UpstreamMetadata, Value,
};

fn guess(f: &str, v: &str, c: Option<&str>) -> UpstreamDatum {
    UpstreamDatum::new(f, Value::Text(v.to_string()), c, None).unwrap()
}

#[test]
fn threshold_excludes_weaker_guesses() {
    let gs = vec![
        guess("Name", "a", Some("possible")),
        guess("Version", "1", Some("likely")),
        guess("Summary", "s", None),
        guess("Homepage", "https://example.org/", Some("certain")),
    ];
    let kept = filter_by_certainty(gs, Some(Certainty::Likely));
    let names: Vec<&str> = kept.iter().map(|d| d.field()).collect();
    assert_eq!(names, vec!["Version", "Homepage"]);
}

#[test]
fn guess_items_with_invalid_minimum() {
    let r = guess_upstream_metadata_items(vec![], Some("very"));
    assert!(matches!(r, Err(UpstreamError::InvalidCertaintyLevel(_))));
    let r = guess_upstream_metadata_items(
        vec![guess("Name", "a", Some("possible")), guess("Name", "b", Some("certain"))],
        Some("confident"),
    )
    .unwrap();
    assert_eq!(r.len(), 1);
    assert_eq!(r[0].text().unwrap(), "b");
}

#[test]
fn extend_merges_filtered_guesses() {
    let mut m = guess_upstream_metadata(vec![guess("Name", "a", Some("likely"))]);
    extend_upstream_metadata(
        &mut m,
        vec![guess("Name", "b", Some("possible")), guess("Version", "3", Some("certain"))],
        Some("possible"),
    )
    .unwrap();
    assert_eq!(m.get("Name").unwrap().text().unwrap(), "a");
    assert_eq!(m.get("Version").unwrap().text().unwrap(), "3");
    let r = extend_upstream_metadata(&mut m, vec![guess("Name", "c", Some("certain"))], Some("x"));
    assert!(matches!(r, Err(UpstreamError::InvalidCertaintyLevel(_))));
    assert_eq!(m.get("Name").unwrap().text().unwrap(), "a");
}

#[test]
fn check_outcomes_are_applied() {
    let mut m = UpstreamMetadata::new();
    m.insert(guess("Repository", "http://example.org/repo", Some("confident")));
    m.insert(guess("Homepage", "http://example.org/", Some("likely")));
    m.insert(guess("Bug-Database", "http://example.org/bugs", Some("possible")));
    m.insert(guess("Name", "foo", Some("possible")));
    check_upstream_metadata(
        &mut m,
        &vec![
            (Field::Repository, CheckOutcome::Canonical("https://example.org/repo.git".to_string())),
            (Field::Homepage, CheckOutcome::Canonical("https://example.org/".to_string())),
            (Field::BugDatabase, CheckOutcome::Invalid),
            (Field::Name, CheckOutcome::Invalid),
        ],
    );
    let r = m.get("Repository").unwrap();
    assert_eq!(r.text().unwrap(), "https://example.org/repo.git");
    assert_eq!(r.certainty_level(), Some(Certainty::Certain));
    assert_eq!(m.get("Homepage").unwrap().certainty_level(), Some(Certainty::Certain));
    assert!(!m.contains("Bug-Database"));
    assert!(m.contains("Name"));
}

#[test]
fn unverifiable_check_changes_nothing() {
    let mut m = UpstreamMetadata::new();
    m.insert(guess("Repository", "http://example.org/repo", Some("possible")));
    apply_check(&mut m, Field::Repository, &CheckOutcome::Unverifiable);
    assert_eq!(m.get("Repository").unwrap().text().unwrap(), "http://example.org/repo");
    apply_check(&mut m, Field::Repository, &CheckOutcome::Canonical("https://x.org/r".to_string()));
    assert_eq!(m.get("Repository").unwrap().certainty_level(), Some(Certainty::Possible));
}

#[test]
fn summary_is_cut_to_first_sentence() {
    assert_eq!(fix_summary("A tool. It does things."), "A tool");
    assert_eq!(fix_summary("A tool...  "), "A tool");
    assert_eq!(fix_summary("v1.0 parser"), "v1.0 parser");
    assert_eq!(fix_summary(""), "");
}

#[test]
fn repository_is_sanitized() {
    assert_eq!(sanitize_repository("git@github.com:user/repo.git"), "ssh://git@github.com/user/repo.git");
    assert_eq!(sanitize_repository("git+https://example.org/r"), "https://example.org/r");
    assert_eq!(sanitize_repository("not a url"), "not a url");
}

#[test]
fn fix_metadata_fixes_repository_and_summary() {
    let mut m = UpstreamMetadata::new();
    m.insert(guess("Repository", "git+https://example.org/r", Some("likely")));
    m.insert(guess("Summary", "Does things. More.", Some("likely")));
    m.insert(guess("Name", "x.", None));
    fix_upstream_metadata(&mut m);
    assert_eq!(m.get("Repository").unwrap().text().unwrap(), "https://example.org/r");
    assert_eq!(m.get("Repository").unwrap().certainty_level(), Some(Certainty::Likely));
    assert_eq!(m.get("Summary").unwrap().text().unwrap(), "Does things");
    assert_eq!(m.get("Name").unwrap().text().unwrap(), "x.");
}

use upstream_metadata::{
    update_from_guesses, Certainty, Field, UpstreamDatum, UpstreamMetadata, Value,
};

fn guess(f: &str, v: &str, c: Option<&str>) -> UpstreamDatum {
    UpstreamDatum::new(f, Value::Text(v.to_string()), c, None).unwrap()
}

fn summary(ds: &[UpstreamDatum]) -> Vec<(String, String, Option<String>)> {
    ds.iter()
        .map(|d| (d.field().to_string(), d.text().unwrap().clone(), d.certainty()))
        .collect()
}

#[test]
fn name_scenario() {
    let mut m = UpstreamMetadata::new();
    let acc = update_from_guesses(
        &mut m,
        vec![
            guess("Name", "Foo", Some("possible")),
            guess("Name", "Foo Project", Some("certain")),
            guess("Name", "Foo Proj", Some("confident")),
        ],
    );
    let d = m.get("Name").unwrap();
    assert_eq!(d.text().unwrap(), "Foo Project");
    assert_eq!(d.certainty_level(), Some(Certainty::Certain));
    assert_eq!(
        summary(&acc),
        vec![
            ("Name".to_string(), "Foo".to_string(), Some("possible".to_string())),
            ("Name".to_string(), "Foo Project".to_string(), Some("certain".to_string())),
        ]
    );
}

#[test]
fn equal_certainty_later_wins() {
    let mut m = UpstreamMetadata::new();
    let acc = update_from_guesses(
        &mut m,
        vec![guess("Version", "1.0", Some("likely")), guess("Version", "1.1", Some("likely"))],
    );
    assert_eq!(acc.len(), 2);
    assert_eq!(m.get("Version").unwrap().text().unwrap(), "1.1");
}

#[test]
fn absent_certainty_ranks_lowest() {
    let mut m = UpstreamMetadata::new();
    let acc = update_from_guesses(
        &mut m,
        vec![guess("Version", "1.0", Some("possible")), guess("Version", "2.0", None)],
    );
    assert_eq!(acc.len(), 1);
    assert_eq!(m.get("Version").unwrap().text().unwrap(), "1.0");
}

#[test]
fn known_bad_never_accepted() {
    let mut m = UpstreamMetadata::new();
    let acc = update_from_guesses(
        &mut m,
        vec![
            guess("Homepage", "https://pypi.org/project/foo", Some("certain")),
            guess("Name", "package", Some("certain")),
        ],
    );
    assert!(acc.is_empty());
    assert!(!m.contains("Homepage"));
    assert!(!m.contains("Name"));
}

#[test]
fn weaker_guess_changes_nothing() {
    let mut m = UpstreamMetadata::new();
    update_from_guesses(&mut m, vec![guess("Summary", "A tool", Some("confident"))]);
    let acc = update_from_guesses(&mut m, vec![guess("Summary", "Other", Some("likely"))]);
    assert!(acc.is_empty());
    assert_eq!(m.get("Summary").unwrap().text().unwrap(), "A tool");
    assert_eq!(m.get("Summary").unwrap().certainty_level(), Some(Certainty::Confident));
}

#[test]
fn replaying_accepted_keeps_collection() {
    let mut m = UpstreamMetadata::new();
    let acc = update_from_guesses(
        &mut m,
        vec![
            guess("Name", "a", Some("possible")),
            guess("Name", "b", Some("certain")),
            guess("Version", "1", Some("likely")),
        ],
    );
    let before = summary(&m.values());
    let again = update_from_guesses(&mut m, acc);
    assert_eq!(summary(&m.values()), before);
    assert!(again.is_empty());
}

#[test]
fn identical_guess_is_not_reported_again() {
    let mut m = UpstreamMetadata::new();
    let acc = update_from_guesses(&mut m, vec![guess("Name", "Foo", Some("possible"))]);
    assert_eq!(acc.len(), 1);
    let again = update_from_guesses(&mut m, acc);
    assert!(again.is_empty());
    assert_eq!(m.get("Name").unwrap().text().unwrap(), "Foo");
}

#[test]
fn replay_of_tied_different_guesses_reports_them() {
    let mut m = UpstreamMetadata::new();
    let acc = update_from_guesses(
        &mut m,
        vec![guess("Name", "A", Some("likely")), guess("Name", "B", Some("likely"))],
    );
    assert_eq!(acc.len(), 2);
    let again = update_from_guesses(&mut m, acc);
    assert_eq!(again.len(), 2);
    assert_eq!(m.get("Name").unwrap().text().unwrap(), "B");
}

#[test]
fn collection_operations() {
    let mut m = UpstreamMetadata::new();
    assert!(m.values().is_empty());
    m.set("Version", guess("Version", "1.0", None));
    m.insert(guess("Name", "foo", Some("certain")));
    assert!(m.contains("Name"));
    assert!(!m.contains("Homepage"));
    assert!(!m.contains("Bogus"));
    assert!(m.get("Bogus").is_none());
    assert_eq!(m.get_field(Field::Name).unwrap().text().unwrap(), "foo");
    let items: Vec<String> = m.items().into_iter().map(|(n, _)| n).collect();
    assert_eq!(items, vec!["Name".to_string(), "Version".to_string()]);
    m.remove("Name");
    assert!(!m.contains("Name"));
    m.remove("Bogus");
    assert_eq!(m.values().len(), 1);
}

#[test]
fn from_dict_fills_default_certainty() {
    let m = UpstreamMetadata::from_dict(
        vec![guess("Name", "foo", None), guess("Version", "2", Some("certain"))],
        Some(Certainty::Likely),
    );
    assert_eq!(m.get("Name").unwrap().certainty_level(), Some(Certainty::Likely));
    assert_eq!(m.get("Version").unwrap().certainty_level(), Some(Certainty::Certain));
}

#[test]
fn from_dict_merges_repeated_fields() {
    let m = UpstreamMetadata::from_dict(
        vec![guess("Name", "strong", Some("certain")), guess("Name", "weak", None)],
        Some(Certainty::Possible),
    );
    assert_eq!(m.get("Name").unwrap().text().unwrap(), "strong");
}

#[test]
fn from_dict_keeps_a_single_known_bad_entry() {
    let m = UpstreamMetadata::from_dict(vec![guess("Name", "package", None)], None);
    assert_eq!(m.get("Name").unwrap().text().unwrap(), "package");
    let m = UpstreamMetadata::from_dict(
        vec![guess("Name", "foo", Some("likely")), guess("Name", "package", Some("certain"))],
        None,
    );
    assert_eq!(m.get("Name").unwrap().text().unwrap(), "foo");
}

#[test]
fn from_dict_drops_known_bad_first_of_repeated_field() {
    let entries = vec![guess("Name", "package", Some("certain")), guess("Name", "foo", Some("likely"))];
    let m = UpstreamMetadata::from_dict(entries, None);
    assert_eq!(m.get("Name").unwrap().text().unwrap(), "foo");
    let mut g = UpstreamMetadata::new();
    update_from_guesses(
        &mut g,
        vec![guess("Name", "package", Some("certain")), guess("Name", "foo", Some("likely"))],
    );
    assert_eq!(g.get("Name").unwrap().text().unwrap(), "foo");
}

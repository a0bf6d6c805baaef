use upstream_metadata::datum::is_bad_location;
use upstream_metadata::{Certainty, Field, Person, UpstreamDatum, UpstreamError, Value};

fn text(s: &str) -> Value {
    Value::Text(s.to_string())
}

fn value_for(f: Field) -> Value {
    match f.shape() {
        upstream_metadata::Shape::Text => text("x"),
        upstream_metadata::Shape::TextList => Value::List(vec!["a".to_string(), "b".to_string()]),
        upstream_metadata::Shape::People => Value::People(vec![Person {
            name: Some("Jane".to_string()),
            email: None,
            url: None,
        }]),
    }
}

#[test]
fn every_field_constructs_and_reports_its_name() {
    for i in 0..upstream_metadata::field::FIELD_COUNT {
        let f = Field::at(i);
        let d = UpstreamDatum::new(f.name(), value_for(f), Some("likely"), None).unwrap();
        assert_eq!(d.field(), f.name());
        assert_eq!(d.field_kind(), f);
        assert_eq!(Field::from_name(f.name()), Some(f));
    }
}

#[test]
fn field_names_are_exact() {
    assert_eq!(Field::RepositoryBrowse.name(), "Repository-Browse");
    assert_eq!(Field::GoImportPath.name(), "Go-Import-Path");
    assert_eq!(Field::FAQ.name(), "FAQ");
    assert_eq!(Field::from_name("name"), None);
}

#[test]
fn unknown_field_is_refused() {
    let r = UpstreamDatum::new("Nonsense", text("x"), None, None);
    assert!(matches!(r, Err(UpstreamError::UnknownField(_))));
    let r = UpstreamDatum::new("", text("x"), Some("bogus"), None);
    assert!(matches!(r, Err(UpstreamError::UnknownField(_))));
}

#[test]
fn wrong_shape_is_refused() {
    let r = UpstreamDatum::new("Name", Value::List(vec!["a".to_string()]), None, None);
    assert!(matches!(r, Err(UpstreamError::ValueShapeMismatch(_))));
    let r = UpstreamDatum::new("Keywords", text("a"), None, None);
    assert!(matches!(r, Err(UpstreamError::ValueShapeMismatch(_))));
}

#[test]
fn invalid_certainty_is_refused() {
    let r = UpstreamDatum::new("Name", text("foo"), Some("sure"), None);
    assert!(matches!(r, Err(UpstreamError::InvalidCertaintyLevel(_))));
}

#[test]
fn repository_list_is_joined_with_spaces() {
    let d = UpstreamDatum::new(
        "Repository",
        Value::List(vec!["https://example.org/r".to_string(), "-b".to_string(), "main".to_string()]),
        None,
        None,
    )
    .unwrap();
    assert_eq!(d.text().unwrap(), "https://example.org/r -b main");
}

#[test]
fn certainty_round_trips() {
    for c in [Certainty::Possible, Certainty::Likely, Certainty::Confident, Certainty::Certain] {
        assert_eq!(Certainty::parse(c.as_str()), Some(c));
        assert_eq!(Certainty::parse(&c.to_text()), Some(c));
    }
    assert_eq!(Certainty::parse("CERTAIN"), None);
    assert_eq!(Certainty::parse(""), None);
}

#[test]
fn certainty_order_is_total() {
    let all = [Certainty::Possible, Certainty::Likely, Certainty::Confident, Certainty::Certain];
    for a in all {
        for b in all {
            assert!(a.le(&b) || b.le(&a));
            for c in all {
                if a.le(&b) && b.le(&c) {
                    assert!(a.le(&c));
                }
            }
        }
    }
    assert!(Certainty::Confident.le(&Certainty::Certain));
    assert!(!Certainty::Certain.le(&Certainty::Confident));
}

#[test]
fn certainty_and_origin_can_be_changed() {
    let mut d = UpstreamDatum::new("Name", text("foo"), None, None).unwrap();
    assert_eq!(d.certainty(), None);
    d.set_certainty(Some("confident")).unwrap();
    assert_eq!(d.certainty(), Some("confident".to_string()));
    assert!(matches!(d.set_certainty(Some("wrong")), Err(UpstreamError::InvalidCertaintyLevel(_))));
    assert_eq!(d.certainty_level(), Some(Certainty::Confident));
    d.set_certainty(None).unwrap();
    assert_eq!(d.certainty_level(), None);
    d.set_origin(Some("setup.py".to_string()));
    assert_eq!(d.origin().map(|s| s.as_str()), Some("setup.py"));
    d.set_origin(None);
    assert!(d.origin().is_none());
}

#[test]
fn known_bad_guesses() {
    let bad = [
        ("Name", "package"),
        ("Version", "unknown"),
        ("Homepage", "https://pypi.org/project/foo"),
        ("Homepage", "https://github.com/"),
        ("Repository", "https://anongit.kde.org/foo"),
        ("Repository", "https://gitlab.com/users/sign_in"),
        ("Bug-Database", "https://bugzilla.gnome.org/"),
        ("Repository-Browse", "https://cgit.kde.org/foo"),
    ];
    for (f, v) in bad {
        let d = UpstreamDatum::new(f, text(v), Some("certain"), None).unwrap();
        assert!(d.known_bad_guess(), "{} {}", f, v);
    }
    let good = [
        ("Name", "dulwich"),
        ("Homepage", "https://www.dulwich.io/"),
        ("Repository", "https://github.com/jelmer/dulwich"),
        ("Summary", "package"),
        ("Homepage", "not a url"),
    ];
    for (f, v) in good {
        let d = UpstreamDatum::new(f, text(v), Some("certain"), None).unwrap();
        assert!(!d.known_bad_guess(), "{} {}", f, v);
    }
}

#[test]
fn datum_reads_as_text() {
    let d = UpstreamDatum::new("Name", text("foo"), Some("certain"), Some("setup.py".to_string()))
        .unwrap();
    assert_eq!(d.describe(), "Name: foo");
    assert_eq!(d.repr(), "UpstreamDatum(Name, foo, Some(setup.py), certainty=Some(certain))");
    let k = UpstreamDatum::new(
        "Keywords",
        Value::List(vec!["a".to_string(), "b".to_string()]),
        None,
        None,
    )
    .unwrap();
    assert_eq!(k.describe(), "Keywords: a, b");
    assert_eq!(k.repr(), "UpstreamDatum(Keywords, a, b, None, certainty=None)");
    let a = UpstreamDatum::new(
        "Author",
        Value::People(vec![
            Person {
                name: Some("Jane".to_string()),
                email: Some("jane@example.org".to_string()),
                url: None,
            },
            Person { name: None, email: None, url: Some("https://x.org".to_string()) },
        ]),
        None,
        None,
    )
    .unwrap();
    assert_eq!(a.describe(), "Author: Jane <jane@example.org>,  (https://x.org)");
}

#[test]
fn datum_equality() {
    let a = UpstreamDatum::new("Name", text("foo"), Some("certain"), None).unwrap();
    let b = UpstreamDatum::new("Name", text("foo"), Some("certain"), None).unwrap();
    let c = UpstreamDatum::new("Name", text("foo"), Some("likely"), None).unwrap();
    let d = UpstreamDatum::new("Summary", text("foo"), Some("certain"), None).unwrap();
    assert!(a.equals(&b));
    assert!(!a.equals(&c));
    assert!(!a.equals(&d));
    assert!(a.copy().equals(&a));
    let p = Person { name: Some("J".to_string()), email: None, url: None };
    assert!(p.equals(&p.copy()));
    assert!(!p.equals(&Person { name: None, email: None, url: None }));
    assert!(Value::List(vec!["a".to_string()]).equals(&Value::List(vec!["a".to_string()])));
    assert!(!Value::List(vec!["a".to_string()]).equals(&Value::List(vec![])));
}

#[test]
fn bad_location_from_parts() {
    let h = |s: &str| Some(s.to_string());
    assert!(is_bad_location(Field::Homepage, &h("rubygems.org"), &h("/gems/x")));
    assert!(is_bad_location(Field::Repository, &h("gitlab.com"), &h("/")));
    assert!(!is_bad_location(Field::Repository, &h("gitlab.com"), &h("/a/b")));
    assert!(is_bad_location(Field::BugSubmit, &h("example.org"), &h("/users/sign_in")));
    assert!(!is_bad_location(Field::Name, &h("pypi.org"), &None));
}

#[test]
fn errors_carry_the_offending_text() {
    assert_eq!(
        UpstreamDatum::new("name", text("foo"), None, None).unwrap_err(),
        UpstreamError::UnknownField("name".to_string())
    );
    assert_eq!(
        UpstreamDatum::new("Keywords", text("a"), None, None).unwrap_err(),
        UpstreamError::ValueShapeMismatch("Keywords".to_string())
    );
    assert_eq!(
        UpstreamDatum::new("Name", text("a"), Some("sure"), None).unwrap_err(),
        UpstreamError::InvalidCertaintyLevel("sure".to_string())
    );
}

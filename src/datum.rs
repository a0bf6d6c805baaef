use vstd::prelude::*;
use vstd::string::*;
use crate::certainty::{Certainty, certainty_of_text};
use crate::error::UpstreamError;
use crate::field::{Field, Shape, field_name, field_of_name, field_shape};
use crate::text::{opt_is, ends_with, seq_ends_with, str_eq};
use crate::urlparse::{host_of, opt_text, path_of, url_host, url_path};

verus! {

/// A person or contact: any of a name, an e-mail address and a web page.
#[derive(Clone, Debug, PartialEq, Eq)]
pub struct Person {
    pub name: Option<String>,
    pub email: Option<String>,
    pub url: Option<String>,
}

/// A raw field value, before it is checked against a field.
#[derive(Clone, Debug)]
pub enum Value {
    Text(String),
    List(Vec<String>),
    People(Vec<Person>),
}

/// The mathematical content of a value.
pub enum ValueModel {
    Text(Seq<char>),
    List(Seq<Seq<char>>),
    People(Seq<PersonView>),
}

/// The mathematical content of a person.
pub struct PersonView {
    pub name: Option<Seq<char>>,
    pub email: Option<Seq<char>>,
    pub url: Option<Seq<char>>,
}

impl View for Person {
    type V = PersonView;

    open spec fn view(&self) -> PersonView {
        PersonView {
            name: opt_string(self.name),
            email: opt_string(self.email),
            url: opt_string(self.url),
        }
    }
}

pub open spec fn person_views(v: Seq<Person>) -> Seq<PersonView> {
    v.map_values(|p: Person| p@)
}

pub open spec fn texts(v: Seq<String>) -> Seq<Seq<char>> {
    v.map_values(|s: String| s@)
}

impl View for Value {
    type V = ValueModel;

    open spec fn view(&self) -> ValueModel {
        match self {
            Value::Text(s) => ValueModel::Text(s@),
            Value::List(v) => ValueModel::List(texts(v@)),
            Value::People(v) => ValueModel::People(person_views(v@)),
        }
    }
}

pub open spec fn model_shape(v: ValueModel) -> Shape {
    match v {
        ValueModel::Text(_) => Shape::Text,
        ValueModel::List(_) => Shape::TextList,
        ValueModel::People(_) => Shape::People,
    }
}

/// The texts of `xs` with `sep` between each two.
pub open spec fn join_with(xs: Seq<Seq<char>>, sep: Seq<char>) -> Seq<char>
    decreases xs.len(),
{
    if xs.len() == 0 {
        Seq::empty()
    } else if xs.len() == 1 {
        xs[0]
    } else {
        join_with(xs.drop_last(), sep) + sep + xs.last()
    }
}

/// Whether a raw value can stand for field `f`: its shape matches, or the
/// field is `Repository` and the value is a list of locations.
pub open spec fn accepts_value(f: Field, v: ValueModel) -> bool {
    model_shape(v) == field_shape(f) || (f == Field::Repository && v is List)
}

/// The value that field `f` stores for an accepted raw value.
pub open spec fn stored_value(f: Field, v: ValueModel) -> ValueModel {
    if f == Field::Repository && v is List {
        ValueModel::Text(join_with(v->List_0, " "@))
    } else {
        v
    }
}

/// A metadata datum with its certainty and origin.
#[derive(Clone, Debug)]
pub struct UpstreamDatum {
    field: Field,
    value: Value,
    certainty: Option<Certainty>,
    origin: Option<String>,
}

/// The mathematical content of an annotated datum.
pub struct DatumView {
    pub field: Field,
    pub value: ValueModel,
    pub certainty: Option<Certainty>,
    pub origin: Option<Seq<char>>,
}

impl View for UpstreamDatum {
    type V = DatumView;

    closed spec fn view(&self) -> DatumView {
        DatumView {
            field: self.field,
            value: self.value@,
            certainty: self.certainty,
            origin: match self.origin {
                Some(o) => Some(o@),
                None => None,
            },
        }
    }
}

/// A datum's tag and value shape agree.
pub open spec fn datum_wf(d: DatumView) -> bool {
    model_shape(d.value) == field_shape(d.field)
}

/// The certainty named by an optional text, where it names one.
pub open spec fn certainty_ok(c: Option<Seq<char>>) -> bool {
    c is None || certainty_of_text(c->0) is Some
}

pub open spec fn certainty_from(c: Option<Seq<char>>) -> Option<Certainty> {
    match c {
        Some(t) => certainty_of_text(t),
        None => None,
    }
}

pub open spec fn opt_str(s: Option<&str>) -> Option<Seq<char>> {
    match s {
        Some(t) => Some(t@),
        None => None,
    }
}

pub open spec fn opt_string(s: Option<String>) -> Option<Seq<char>> {
    match s {
        Some(t) => Some(t@),
        None => None,
    }
}

/// Whether a URL-valued field holds a location that heuristics are known
/// to produce wrongly, judged from the host and path of its URL: a tracker
/// or mirror that is not the project's own, a sign-in page, or the bare
/// root of a hosting site.
pub open spec fn bad_location_parts(f: Field, host: Option<Seq<char>>, path: Option<Seq<char>>) -> bool {
    let sign_in = path is Some && seq_ends_with(path->0, "/sign_in"@);
    let hosting_root = (host == Some("github.com"@) || host == Some("gitlab.com"@)) && path
        == Some("/"@);
    match f {
        Field::BugDatabase | Field::BugSubmit => host == Some("bugzilla.gnome.org"@) || host
            == Some("bugs.freedesktop.org"@) || sign_in,
        Field::Repository => host == Some("anongit.kde.org"@) || host == Some(
            "git.gitorious.org"@,
        ) || sign_in || hosting_root,
        Field::RepositoryBrowse => host == Some("cgit.kde.org"@) || sign_in,
        Field::Homepage => host == Some("pypi.org"@) || host == Some("rubygems.org"@)
            || hosting_root,
        _ => false,
    }
}

/// Whether a URL-valued field holds a location known to be guessed wrongly.
pub open spec fn bad_location(f: Field, s: Seq<char>) -> bool {
    bad_location_parts(f, url_host(s), url_path(s))
}

/// Whether a datum is a value that heuristics are known to guess wrongly.
pub open spec fn is_known_bad(d: DatumView) -> bool {
    match d.value {
        ValueModel::Text(s) => match d.field {
            Field::Name => s == "package"@ || s == "unknown"@,
            Field::Version => s == "unknown"@ || s == "UNKNOWN"@,
            _ => bad_location(d.field, s),
        },
        _ => false,
    }
}

fn copy_string(s: &String) -> (r: String)
    ensures
        r == *s,
{
    s.clone()
}

fn copy_opt_string(s: &Option<String>) -> (r: Option<String>)
    ensures
        r == *s,
{
    match s {
        Some(t) => Some(copy_string(t)),
        None => None,
    }
}

impl Person {
    /// A copy of this person.
    pub fn copy(&self) -> (r: Person)
        ensures
            r == *self,
    {
        Person {
            name: copy_opt_string(&self.name),
            email: copy_opt_string(&self.email),
            url: copy_opt_string(&self.url),
        }
    }
}

/// The texts of `v` with `sep` between each two.
fn join_texts(v: &Vec<String>, sep: &str) -> (r: String)
    ensures
        r@ == join_with(texts(v@), sep@),
{
    let mut r = String::new();
    let mut i: usize = 0;
    while i < v.len()
        invariant
            i <= v@.len(),
            r@ == join_with(texts(v@.subrange(0, i as int)), sep@),
        decreases v@.len() - i,
    {
        let ghost before = texts(v@.subrange(0, i as int));
        let ghost after = texts(v@.subrange(0, i + 1));
        assert(after.drop_last() == before);
        assert(after.last() == v@[i as int]@);
        if i > 0 {
            r.append(sep);
        }
        r.append(v[i].as_str());
        i = i + 1;
    }
    assert(v@.subrange(0, v@.len() as int) == v@);
    r
}

impl Value {
    /// A copy of this value.
    pub fn copy(&self) -> (r: Value)
        ensures
            r@ == self@,
    {
        match self {
            Value::Text(s) => Value::Text(copy_string(s)),
            Value::List(v) => {
                let mut out: Vec<String> = Vec::new();
                let mut i: usize = 0;
                while i < v.len()
                    invariant
                        i <= v@.len(),
                        out@ == v@.subrange(0, i as int),
                    decreases v@.len() - i,
                {
                    out.push(copy_string(&v[i]));
                    i = i + 1;
                }
                assert(out@ == v@);
                Value::List(out)
            },
            Value::People(v) => {
                let mut out: Vec<Person> = Vec::new();
                let mut i: usize = 0;
                while i < v.len()
                    invariant
                        i <= v@.len(),
                        out@ == v@.subrange(0, i as int),
                    decreases v@.len() - i,
                {
                    out.push(v[i].copy());
                    i = i + 1;
                }
                assert(out@ == v@);
                assert(person_views(out@) == person_views(v@));
                Value::People(out)
            },
        }
    }

    /// The shape of this value.
    pub fn shape(&self) -> (r: Shape)
        ensures
            r == model_shape(self@),
    {
        match self {
            Value::Text(_) => Shape::Text,
            Value::List(_) => Shape::TextList,
            Value::People(_) => Shape::People,
        }
    }
}

impl UpstreamDatum {
    pub open spec fn wf(&self) -> bool {
        datum_wf(self@)
    }

    /// Builds a datum from a field name, a raw value, an optional certainty
    /// text and an optional origin. The field is checked first, then the
    /// value's shape, then the certainty.
    pub fn new(field: &str, value: Value, certainty: Option<&str>, origin: Option<String>) -> (r:
        Result<UpstreamDatum, UpstreamError>)
        ensures
            field_of_name(field@) is None ==> (r matches Err(UpstreamError::UnknownField(s)) && s@
                == field@),
            field_of_name(field@) matches Some(f) && !accepts_value(f, value@) ==> (r matches Err(
                UpstreamError::ValueShapeMismatch(s),
            ) && s@ == field@),
            field_of_name(field@) matches Some(f) && accepts_value(f, value@) && !certainty_ok(
                opt_str(certainty),
            ) ==> (r matches Err(UpstreamError::InvalidCertaintyLevel(s)) && Some(s@) == opt_str(
                certainty,
            )),
            r is Ok <==> (field_of_name(field@) matches Some(f) && accepts_value(f, value@)
                && certainty_ok(opt_str(certainty))),
            r matches Ok(d) ==> {
                &&& field_of_name(field@) == Some(d@.field)
                &&& field_name(d@.field) == field@
                &&& d@.value == stored_value(d@.field, value@)
                &&& d@.certainty == certainty_from(opt_str(certainty))
                &&& d@.origin == opt_string(origin)
                &&& d.wf()
            },
    {
        let f = match Field::from_name(field) {
            Some(f) => f,
            None => {
                return Err(UpstreamError::UnknownField(String::from_str(field)));
            },
        };
        let value = if f.shape() == value.shape() {
            value
        } else {
            match (f, &value) {
                (Field::Repository, Value::List(v)) => Value::Text(join_texts(v, " ")),
                _ => {
                    return Err(UpstreamError::ValueShapeMismatch(String::from_str(field)));
                },
            }
        };
        let certainty = match certainty {
            Some(t) => match Certainty::parse(t) {
                Some(c) => Some(c),
                None => {
                    return Err(UpstreamError::InvalidCertaintyLevel(String::from_str(t)));
                },
            },
            None => None,
        };
        Ok(UpstreamDatum { field: f, value, certainty, origin })
    }

    /// Builds a datum for a known field; `None` where the value's shape does
    /// not fit the field.
    pub fn for_field(field: Field, value: Value, certainty: Option<Certainty>) -> (r: Option<
        UpstreamDatum,
    >)
        ensures
            r is Some <==> model_shape(value@) == field_shape(field),
            r matches Some(d) ==> d@ == (DatumView {
                field,
                value: value@,
                certainty,
                origin: None,
            }),
    {
        if field.shape() == value.shape() {
            Some(UpstreamDatum { field, value, certainty, origin: None })
        } else {
            None
        }
    }

    /// The field kind of this datum.
    pub fn field_kind(&self) -> (r: Field)
        ensures
            r == self@.field,
    {
        self.field
    }

    /// The canonical name of this datum's field.
    pub fn field(&self) -> (r: &'static str)
        ensures
            r@ == field_name(self@.field),
    {
        self.field.name()
    }

    /// The value of this datum.
    pub fn value(&self) -> (r: &Value)
        ensures
            r@ == self@.value,
    {
        &self.value
    }

    /// The text of a single-text value.
    pub fn text(&self) -> (r: Option<&String>)
        ensures
            self@.value is Text <==> r is Some,
            r matches Some(s) ==> self@.value == ValueModel::Text(s@),
    {
        match &self.value {
            Value::Text(s) => Some(s),
            _ => None,
        }
    }

    /// Where this datum came from.
    pub fn origin(&self) -> (r: Option<&String>)
        ensures
            self@.origin is Some <==> r is Some,
            r matches Some(s) ==> self@.origin == Some(s@),
    {
        match &self.origin {
            Some(o) => Some(o),
            None => None,
        }
    }

    /// Sets or clears the origin; nothing else changes.
    pub fn set_origin(&mut self, origin: Option<String>)
        ensures
            final(self)@ == (DatumView { origin: opt_string(origin), ..old(self)@ }),
    {
        self.origin = origin;
    }

    /// The certainty level of this datum.
    pub fn certainty_level(&self) -> (r: Option<Certainty>)
        ensures
            r == self@.certainty,
    {
        self.certainty
    }

    /// The canonical text of this datum's certainty.
    pub fn certainty(&self) -> (r: Option<String>)
        ensures
            r is Some <==> self@.certainty is Some,
            r matches Some(s) ==> s@ == crate::certainty::certainty_text(self@.certainty->0),
    {
        match self.certainty {
            Some(c) => Some(c.to_text()),
            None => None,
        }
    }

    /// Sets the certainty from its text, or clears it; a text that names no
    /// level is refused and leaves the datum unchanged.
    pub fn set_certainty(&mut self, certainty: Option<&str>) -> (r: Result<(), UpstreamError>)
        ensures
            r is Ok <==> certainty_ok(opt_str(certainty)),
            r is Ok ==> final(self)@ == (DatumView {
                certainty: certainty_from(opt_str(certainty)),
                ..old(self)@
            }),
            r is Err ==> final(self)@ == old(self)@ && (r matches Err(
                UpstreamError::InvalidCertaintyLevel(s),
            ) && Some(s@) == opt_str(certainty)),
    {
        match certainty {
            Some(t) => match Certainty::parse(t) {
                Some(c) => {
                    self.certainty = Some(c);
                    Ok(())
                },
                None => Err(UpstreamError::InvalidCertaintyLevel(String::from_str(t))),
            },
            None => {
                self.certainty = None;
                Ok(())
            },
        }
    }

    /// Sets the certainty level; nothing else changes.
    pub fn set_certainty_level(&mut self, certainty: Option<Certainty>)
        ensures
            final(self)@ == (DatumView { certainty, ..old(self)@ }),
    {
        self.certainty = certainty;
    }

    /// This datum, of a field whose values are texts, with its value
    /// replaced by a text; field, certainty and origin are kept.
    pub fn with_text(&self, s: String) -> (r: UpstreamDatum)
        requires
            field_shape(self@.field) == Shape::Text,
        ensures
            r@ == (DatumView { value: ValueModel::Text(s@), ..self@ }),
            r.wf(),
    {
        UpstreamDatum {
            field: self.field,
            value: Value::Text(s),
            certainty: self.certainty,
            origin: copy_opt_string(&self.origin),
        }
    }

    /// A copy of this datum.
    pub fn copy(&self) -> (r: UpstreamDatum)
        ensures
            r@ == self@,
    {
        UpstreamDatum {
            field: self.field,
            value: self.value.copy(),
            certainty: self.certainty,
            origin: copy_opt_string(&self.origin),
        }
    }

    /// Whether this datum is a value that heuristics are known to guess
    /// wrongly for its field.
    pub fn known_bad_guess(&self) -> (r: bool)
        ensures
            r == is_known_bad(self@),
    {
        let s = match &self.value {
            Value::Text(s) => s.as_str(),
            _ => {
                return false;
            },
        };
        match self.field {
            Field::Name => str_eq(s, "package") || str_eq(s, "unknown"),
            Field::Version => str_eq(s, "unknown") || str_eq(s, "UNKNOWN"),
            Field::BugDatabase | Field::BugSubmit | Field::Repository | Field::RepositoryBrowse
            | Field::Homepage => bad_location_of(self.field, s),
            _ => false,
        }
    }
}

fn bad_location_of(f: Field, s: &str) -> (r: bool)
    ensures
        r == bad_location(f, s@),
{
    let host = host_of(s);
    let path = path_of(s);
    is_bad_location(f, &host, &path)
}

/// Whether a location held by field `f` is known to be guessed wrongly,
/// given the host and path of its URL.
pub fn is_bad_location(f: Field, host: &Option<String>, path: &Option<String>) -> (r: bool)
    ensures
        r == bad_location_parts(f, opt_text(*host), opt_text(*path)),
{
    let sign_in = match path {
        Some(p) => ends_with(p.as_str(), "/sign_in"),
        None => false,
    };
    let hosting_root = (opt_is(host, "github.com") || opt_is(host, "gitlab.com")) && opt_is(
        path,
        "/",
    );
    match f {
        Field::BugDatabase | Field::BugSubmit => opt_is(host, "bugzilla.gnome.org") || opt_is(
            host,
            "bugs.freedesktop.org",
        ) || sign_in,
        Field::Repository => opt_is(host, "anongit.kde.org") || opt_is(host, "git.gitorious.org")
            || sign_in || hosting_root,
        Field::RepositoryBrowse => opt_is(host, "cgit.kde.org") || sign_in,
        Field::Homepage => opt_is(host, "pypi.org") || opt_is(host, "rubygems.org")
            || hosting_root,
        _ => false,
    }
}

} // verus!

verus! {

/// For every field, its canonical name is recognised as that field and a
/// value of the field's own shape is accepted and stored as given: building
/// a datum from them (with a valid or absent certainty) succeeds and
/// reports that name.
pub proof fn lemma_every_field_constructible(f: Field, v: ValueModel)
    requires
        model_shape(v) == field_shape(f),
    ensures
        field_of_name(field_name(f)) == Some(f),
        accepts_value(f, v),
        stored_value(f, v) == v,
{
    crate::field::lemma_field_name_round_trip(f, field_name(f));
}

} // verus!

verus! {

/// How a person reads: the name, then ` <email>` and ` (url)` where known.
pub open spec fn person_text(p: PersonView) -> Seq<char> {
    let name = match p.name {
        Some(n) => n,
        None => Seq::empty(),
    };
    let email = match p.email {
        Some(e) => " <"@ + e + ">"@,
        None => Seq::empty(),
    };
    let url = match p.url {
        Some(u) => " ("@ + u + ")"@,
        None => Seq::empty(),
    };
    name + email + url
}

/// How a value reads: a text as it is, a list with `, ` between its items.
pub open spec fn value_text(v: ValueModel) -> Seq<char> {
    match v {
        ValueModel::Text(s) => s,
        ValueModel::List(xs) => join_with(xs, ", "@),
        ValueModel::People(ps) => join_with(ps.map_values(|p: PersonView| person_text(p)), ", "@),
    }
}

/// How an optional text reads: `Some(text)` or `None`.
pub open spec fn optional_text(o: Option<Seq<char>>) -> Seq<char> {
    match o {
        Some(t) => "Some("@ + t + ")"@,
        None => "None"@,
    }
}

pub open spec fn certainty_text_of(c: Option<Certainty>) -> Option<Seq<char>> {
    match c {
        Some(l) => Some(crate::certainty::certainty_text(l)),
        None => None,
    }
}

fn push_str(r: &mut String, s: &str)
    ensures
        final(r)@ == old(r)@ + s@,
{
    r.append(s);
}

impl Person {
    /// How this person reads.
    pub fn describe(&self) -> (r: String)
        ensures
            r@ == person_text(self@),
    {
        let mut r = String::new();
        match &self.name {
            Some(n) => push_str(&mut r, n.as_str()),
            None => {},
        }
        match &self.email {
            Some(e) => {
                push_str(&mut r, " <");
                push_str(&mut r, e.as_str());
                push_str(&mut r, ">");
            },
            None => {},
        }
        match &self.url {
            Some(u) => {
                push_str(&mut r, " (");
                push_str(&mut r, u.as_str());
                push_str(&mut r, ")");
            },
            None => {},
        }
        proof {
            assert(r@ =~= person_text(self@));
        }
        r
    }
}

impl Value {
    /// How this value reads.
    pub fn describe(&self) -> (r: String)
        ensures
            r@ == value_text(self@),
    {
        match self {
            Value::Text(s) => copy_string(s),
            Value::List(v) => join_texts(v, ", "),
            Value::People(ps) => {
                let mut names: Vec<String> = Vec::new();
                let mut i: usize = 0;
                while i < ps.len()
                    invariant
                        i <= ps@.len(),
                        names@.len() == i,
                        forall|k: int| 0 <= k < i ==> (#[trigger] names@[k])@ == person_text(ps@[k]@),
                    decreases ps@.len() - i,
                {
                    names.push(ps[i].describe());
                    i = i + 1;
                }
                proof {
                    assert(texts(names@) =~= person_views(ps@).map_values(|p: PersonView| person_text(p)));
                }
                join_texts(&names, ", ")
            },
        }
    }
}

fn optional_describe(o: Option<&str>) -> (r: String)
    ensures
        r@ == optional_text(opt_str(o)),
{
    match o {
        Some(t) => {
            let mut r = String::from_str("Some(");
            push_str(&mut r, t);
            push_str(&mut r, ")");
            r
        },
        None => String::from_str("None"),
    }
}

impl UpstreamDatum {
    /// How this datum reads: `Field: value`.
    pub fn describe(&self) -> (r: String)
        ensures
            r@ == field_name(self@.field) + ": "@ + value_text(self@.value),
    {
        let mut r = String::from_str(self.field());
        push_str(&mut r, ": ");
        let v = self.value.describe();
        push_str(&mut r, v.as_str());
        r
    }

    /// A full account of this datum: field, value, origin and certainty.
    pub fn repr(&self) -> (r: String)
        ensures
            r@ == "UpstreamDatum("@ + field_name(self@.field) + ", "@ + value_text(self@.value)
                + ", "@ + optional_text(self@.origin) + ", certainty="@ + optional_text(
                certainty_text_of(self@.certainty),
            ) + ")"@,
    {
        let mut r = String::from_str("UpstreamDatum(");
        push_str(&mut r, self.field());
        push_str(&mut r, ", ");
        let v = self.value.describe();
        push_str(&mut r, v.as_str());
        push_str(&mut r, ", ");
        let o = match &self.origin {
            Some(t) => optional_describe(Some(t.as_str())),
            None => optional_describe(None),
        };
        push_str(&mut r, o.as_str());
        push_str(&mut r, ", certainty=");
        let c = match self.certainty {
            Some(l) => optional_describe(Some(l.as_str())),
            None => optional_describe(None),
        };
        push_str(&mut r, c.as_str());
        push_str(&mut r, ")");
        r
    }
}

} // verus!

verus! {

fn opt_eq(a: &Option<String>, b: &Option<String>) -> (r: bool)
    ensures
        r == (opt_string(*a) == opt_string(*b)),
{
    match (a, b) {
        (Some(x), Some(y)) => str_eq(x.as_str(), y.as_str()),
        (None, None) => true,
        _ => false,
    }
}

fn texts_eq(a: &Vec<String>, b: &Vec<String>) -> (r: bool)
    ensures
        r == (texts(a@) == texts(b@)),
{
    if a.len() != b.len() {
        assert(texts(a@).len() != texts(b@).len());
        return false;
    }
    let mut i: usize = 0;
    while i < a.len()
        invariant
            a@.len() == b@.len(),
            i <= a@.len(),
            forall|k: int| 0 <= k < i ==> (#[trigger] a@[k])@ == b@[k]@,
        decreases a@.len() - i,
    {
        if !str_eq(a[i].as_str(), b[i].as_str()) {
            assert(texts(a@)[i as int] != texts(b@)[i as int]);
            return false;
        }
        i = i + 1;
    }
    assert(texts(a@) =~= texts(b@));
    true
}

fn people_eq(a: &Vec<Person>, b: &Vec<Person>) -> (r: bool)
    ensures
        r == (person_views(a@) == person_views(b@)),
{
    if a.len() != b.len() {
        assert(person_views(a@).len() != person_views(b@).len());
        return false;
    }
    let mut i: usize = 0;
    while i < a.len()
        invariant
            a@.len() == b@.len(),
            i <= a@.len(),
            forall|k: int| 0 <= k < i ==> (#[trigger] a@[k])@ == b@[k]@,
        decreases a@.len() - i,
    {
        if !a[i].equals(&b[i]) {
            assert(person_views(a@)[i as int] != person_views(b@)[i as int]);
            return false;
        }
        i = i + 1;
    }
    assert(person_views(a@) =~= person_views(b@));
    true
}

impl Person {
    /// Whether two people hold the same name, e-mail address and web page.
    pub fn equals(&self, other: &Person) -> (r: bool)
        ensures
            r == (self@ == other@),
    {
        opt_eq(&self.name, &other.name) && opt_eq(&self.email, &other.email) && opt_eq(
            &self.url,
            &other.url,
        )
    }
}

impl Value {
    /// Whether two values are the same.
    pub fn equals(&self, other: &Value) -> (r: bool)
        ensures
            r == (self@ == other@),
    {
        match (self, other) {
            (Value::Text(a), Value::Text(b)) => str_eq(a.as_str(), b.as_str()),
            (Value::List(a), Value::List(b)) => texts_eq(a, b),
            (Value::People(a), Value::People(b)) => people_eq(a, b),
            _ => false,
        }
    }
}

fn same_certainty(a: Option<Certainty>, b: Option<Certainty>) -> (r: bool)
    ensures
        r == (a == b),
{
    match (a, b) {
        (Some(x), Some(y)) => x == y,
        (None, None) => true,
        _ => false,
    }
}

impl UpstreamDatum {
    /// Whether two data agree in field, value, certainty and origin.
    pub fn equals(&self, other: &UpstreamDatum) -> (r: bool)
        ensures
            r == (self@ == other@),
    {
        self.field == other.field && self.value.equals(&other.value) && same_certainty(
            self.certainty,
            other.certainty,
        ) && opt_eq(&self.origin, &other.origin)
    }
}

} // verus!

//! Checking and fixing a merged collection, and gathering guesses into one.
use vstd::prelude::*;
use vstd::string::*;
use crate::certainty::{Certainty, rank};
use crate::datum::{DatumView, UpstreamDatum, ValueModel, certainty_ok, certainty_from, opt_str};
use crate::error::UpstreamError;
use crate::field::Field;
use crate::merge::{at_least, filter_by_certainty, merged, update_from_guesses};
use crate::metadata::{UpstreamMetadata, all_wf, lookup, views};
use crate::text::slice;
use crate::urlparse::url_serialization;
use crate::vcs::{dropped_vcs, drop_vcs_in_scheme, fixup_rcp_style_git_repo_url, rcp_fixed};

verus! {

/// What a check of one field's location found.
#[derive(Clone, Debug)]
pub enum CheckOutcome {
    /// The location is valid; this is its canonical form.
    Canonical(String),
    /// The location does not lead anywhere.
    Invalid,
    /// The location could not be checked.
    Unverifiable,
}

/// Fields whose locations are checked.
pub open spec fn checked_field(f: Field) -> bool {
    f == Field::Repository || f == Field::Homepage || f == Field::RepositoryBrowse || f
        == Field::BugDatabase || f == Field::BugSubmit
}

/// The certainty of an entry whose location was confirmed: a repository
/// held with confidence becomes certain, as does any other entry held as
/// at least likely.
pub open spec fn confirmed_certainty(f: Field, c: Option<Certainty>) -> Option<Certainty> {
    if f == Field::Repository {
        if c == Some(Certainty::Confident) {
            Some(Certainty::Certain)
        } else {
            c
        }
    } else if rank(c) >= 2 {
        Some(Certainty::Certain)
    } else {
        c
    }
}

/// The collection after the outcome of checking field `f`.
pub open spec fn after_check(m: Map<Field, DatumView>, f: Field, o: CheckOutcome) -> Map<
    Field,
    DatumView,
> {
    if !checked_field(f) || !m.contains_key(f) || !(m[f].value is Text) {
        m
    } else {
        match o {
            CheckOutcome::Canonical(u) => m.insert(
                f,
                DatumView {
                    value: ValueModel::Text(u@),
                    certainty: confirmed_certainty(f, m[f].certainty),
                    ..m[f]
                },
            ),
            CheckOutcome::Invalid => m.remove(f),
            CheckOutcome::Unverifiable => m,
        }
    }
}

/// The collection after a sequence of check outcomes, in order.
pub open spec fn after_checks(m: Map<Field, DatumView>, os: Seq<(Field, CheckOutcome)>) -> Map<
    Field,
    DatumView,
>
    decreases os.len(),
{
    if os.len() == 0 {
        m
    } else {
        after_checks(after_check(m, os[0].0, os[0].1), os.drop_first())
    }
}

/// Applies the outcome of checking one field's location: a confirmed
/// location takes its canonical form and may gain certainty, an invalid one
/// is removed, and other fields are never touched.
pub fn apply_check(metadata: &mut UpstreamMetadata, f: Field, outcome: &CheckOutcome)
    requires
        old(metadata).wf(),
    ensures
        final(metadata).wf(),
        final(metadata)@ == after_check(old(metadata)@, f, *outcome),
        forall|g: Field| g != f ==> lookup(#[trigger] final(metadata)@, g) == lookup(old(metadata)@, g),
{
    let checked = match f {
        Field::Repository | Field::Homepage | Field::RepositoryBrowse | Field::BugDatabase
        | Field::BugSubmit => true,
        _ => false,
    };
    if !checked {
        return;
    }
    let entry = match metadata.get_field(f) {
        Some(d) => d,
        None => {
            return;
        },
    };
    if entry.text().is_none() {
        return;
    }
    match outcome {
        CheckOutcome::Canonical(u) => {
            let mut d = entry.with_text(u.clone());
            let c = d.certainty_level();
            let promoted = match f {
                Field::Repository => match c {
                    Some(Certainty::Confident) => Some(Certainty::Certain),
                    _ => c,
                },
                _ => if crate::certainty::rank_of(c) >= 2 {
                    Some(Certainty::Certain)
                } else {
                    c
                },
            };
            proof {
                let e = old(metadata)@[f];
                assert(c == e.certainty);
                assert(promoted == confirmed_certainty(f, e.certainty));
            }
            d.set_certainty_level(promoted);
            proof {
                let e = old(metadata)@[f];
                assert(d@ == (DatumView {
                    value: ValueModel::Text(u@),
                    certainty: confirmed_certainty(f, e.certainty),
                    ..e
                }));
            }
            metadata.insert(d);
        },
        CheckOutcome::Invalid => metadata.remove_field(f),
        CheckOutcome::Unverifiable => {},
    }
}

/// Applies the outcomes of checking the collection's locations, one after
/// the other; every outcome is applied, whatever the others were.
pub fn check_upstream_metadata(metadata: &mut UpstreamMetadata, outcomes: &Vec<(Field, CheckOutcome)>)
    requires
        old(metadata).wf(),
    ensures
        final(metadata).wf(),
        final(metadata)@ == after_checks(old(metadata)@, outcomes@),
{
    let ghost m0 = metadata@;
    let ghost os = outcomes@;
    let mut i: usize = 0;
    proof {
        assert(os.subrange(0, os.len() as int) == os);
    }
    while i < outcomes.len()
        invariant
            metadata.wf(),
            os == outcomes@,
            i <= os.len(),
            after_checks(m0, os) == after_checks(metadata@, os.subrange(i as int, os.len() as int)),
        decreases os.len() - i,
    {
        proof {
            let rest = os.subrange(i as int, os.len() as int);
            assert(rest[0] == os[i as int]);
            assert(rest.drop_first() == os.subrange(i + 1, os.len() as int));
        }
        apply_check(metadata, outcomes[i].0, &outcomes[i].1);
        i = i + 1;
    }
    proof {
        assert(os.subrange(os.len() as int, os.len() as int) == Seq::<(Field, CheckOutcome)>::empty());
    }
}

} // verus!

verus! {

/// A full stop followed by a space stands at position `k`.
pub open spec fn stop_at(s: Seq<char>, k: int) -> bool {
    s[k] == '.' && s[k + 1] == ' '
}

/// `j` is the first position of a full stop followed by a space.
pub open spec fn is_sentence_end(s: Seq<char>, j: int) -> bool {
    0 <= j && j + 1 < s.len() && stop_at(s, j) && forall|k: int|
        0 <= k < j ==> !#[trigger] stop_at(s, k)
}

/// The text up to its first full stop followed by a space.
pub open spec fn first_sentence(s: Seq<char>) -> Seq<char> {
    if exists|j: int| is_sentence_end(s, j) {
        s.subrange(0, choose|j: int| is_sentence_end(s, j))
    } else {
        s
    }
}

pub open spec fn is_blank(c: char) -> bool {
    c == ' ' || c == '\t' || c == '\n' || c == '\r'
}

/// The text without trailing blanks.
pub open spec fn trim_end_blank(s: Seq<char>) -> Seq<char>
    decreases s.len(),
{
    if s.len() > 0 && is_blank(s.last()) {
        trim_end_blank(s.drop_last())
    } else {
        s
    }
}

/// The text without trailing full stops.
pub open spec fn trim_end_dots(s: Seq<char>) -> Seq<char>
    decreases s.len(),
{
    if s.len() > 0 && s.last() == '.' {
        trim_end_dots(s.drop_last())
    } else {
        s
    }
}

/// A summary cut to its first sentence, without trailing blanks or full stops.
pub open spec fn fixed_summary(s: Seq<char>) -> Seq<char> {
    trim_end_dots(trim_end_blank(first_sentence(s)))
}

/// A repository location read as shorthand remote syntax where it is in
/// that form, then without a version-control prefix in its scheme.
pub open spec fn sanitized_repository(s: Seq<char>) -> Seq<char> {
    let r = rcp_fixed(s);
    match url_serialization(r) {
        Some(u) => dropped_vcs(r, u),
        None => r,
    }
}

/// The entry of `f` with a new text, where it holds a text.
pub open spec fn retexted(m: Map<Field, DatumView>, f: Field, t: spec_fn(Seq<char>) -> Seq<char>) -> Map<
    Field,
    DatumView,
> {
    if m.contains_key(f) && m[f].value is Text {
        m.insert(f, DatumView { value: ValueModel::Text(t(m[f].value->Text_0)), ..m[f] })
    } else {
        m
    }
}

/// The collection after its repository and summary are fixed.
pub open spec fn fixed_metadata(m: Map<Field, DatumView>) -> Map<Field, DatumView> {
    retexted(
        retexted(m, Field::Repository, |s: Seq<char>| sanitized_repository(s)),
        Field::Summary,
        |s: Seq<char>| fixed_summary(s),
    )
}

/// Cuts a summary to its first sentence and drops trailing blanks and
/// full stops.
pub fn fix_summary(s: &str) -> (r: String)
    ensures
        r@ == fixed_summary(s@),
{
    let n = s.unicode_len();
    let end: usize = match first_stop(s) {
        Some(j) => j,
        None => n,
    };
    proof {
        if end < n {
            let c = choose|c: int| is_sentence_end(s@, c);
            if c < end {
                assert(!stop_at(s@, c));
            } else if end < c {
                assert(!stop_at(s@, end as int));
            }
            assert(first_sentence(s@) == s@.subrange(0, end as int));
        } else {
            if exists|c: int| is_sentence_end(s@, c) {
                let c = choose|c: int| is_sentence_end(s@, c);
                assert(!stop_at(s@, c));
            }
            assert(first_sentence(s@) == s@.subrange(0, n as int));
        }
    }
    let ghost first = s@.subrange(0, end as int);
    let mut e: usize = end;
    while e > 0 && is_blank_char(s.get_char(e - 1))
        invariant
            e <= end <= n,
            n == s@.len(),
            first == s@.subrange(0, end as int),
            trim_end_blank(first) == trim_end_blank(s@.subrange(0, e as int)),
        decreases e,
    {
        assert(s@.subrange(0, e as int).drop_last() == s@.subrange(0, e - 1));
        e = e - 1;
    }
    let ghost blank_trimmed = s@.subrange(0, e as int);
    let mut d: usize = e;
    while d > 0 && s.get_char(d - 1) == '.'
        invariant
            d <= e <= n,
            n == s@.len(),
            blank_trimmed == s@.subrange(0, e as int),
            trim_end_dots(blank_trimmed) == trim_end_dots(s@.subrange(0, d as int)),
        decreases d,
    {
        assert(s@.subrange(0, d as int).drop_last() == s@.subrange(0, d - 1));
        d = d - 1;
    }
    slice(s, 0, d)
}

fn first_stop(s: &str) -> (r: Option<usize>)
    ensures
        match r {
            Some(j) => is_sentence_end(s@, j as int),
            None => forall|k: int| 0 <= k && k + 1 < s@.len() ==> !#[trigger] stop_at(s@, k),
        },
{
    let n = s.unicode_len();
    let mut j: usize = 0;
    while j < n && n - j > 1
        invariant
            n == s@.len(),
            j <= n,
            forall|k: int| 0 <= k < j && k + 1 < n ==> !#[trigger] stop_at(s@, k),
        decreases n - j,
    {
        if s.get_char(j) == '.' && s.get_char(j + 1) == ' ' {
            return Some(j);
        }
        j = j + 1;
    }
    None
}

fn is_blank_char(c: char) -> (r: bool)
    ensures
        r == is_blank(c),
{
    c == ' ' || c == '\t' || c == '\n' || c == '\r'
}

/// Reads a repository location given in shorthand remote syntax as a URL
/// and removes a version-control prefix from its scheme.
pub fn sanitize_repository(s: &str) -> (r: String)
    ensures
        r@ == sanitized_repository(s@),
{
    let r = fixup_rcp_style_git_repo_url(s);
    match drop_vcs_in_scheme(r.as_str()) {
        Ok(v) => v,
        Err(_) => r,
    }
}

/// Normalises the repository location and the summary of a collection;
/// other entries, and the certainty and origin of these, are kept.
pub fn fix_upstream_metadata(metadata: &mut UpstreamMetadata)
    requires
        old(metadata).wf(),
    ensures
        final(metadata).wf(),
        final(metadata)@ == fixed_metadata(old(metadata)@),
{
    let ghost m0 = metadata@;
    let repo = match metadata.get_field(Field::Repository) {
        Some(d) => match d.text() {
            Some(t) => Some(d.with_text(sanitize_repository(t.as_str()))),
            None => None,
        },
        None => None,
    };
    match repo {
        Some(d) => metadata.insert(d),
        None => {},
    }
    let ghost m1 = metadata@;
    proof {
        assert(m1 == retexted(m0, Field::Repository, |s: Seq<char>| sanitized_repository(s)));
    }
    let summary = match metadata.get_field(Field::Summary) {
        Some(d) => match d.text() {
            Some(t) => Some(d.with_text(fix_summary(t.as_str()))),
            None => None,
        },
        None => None,
    };
    match summary {
        Some(d) => metadata.insert(d),
        None => {},
    }
}

/// Builds a collection from a sequence of guesses.
pub fn guess_upstream_metadata(guesses: Vec<UpstreamDatum>) -> (r: UpstreamMetadata)
    requires
        all_wf(guesses@),
    ensures
        r.wf(),
        r@ == merged(Map::<Field, DatumView>::empty(), views(guesses@)),
{
    let mut r = UpstreamMetadata::new();
    update_from_guesses(&mut r, guesses);
    r
}

/// The minimum certainty named by an optional text.
fn minimum_from(minimum_certainty: Option<&str>) -> (r: Result<Option<Certainty>, UpstreamError>)
    ensures
        r is Ok <==> certainty_ok(opt_str(minimum_certainty)),
        r matches Ok(c) ==> c == certainty_from(opt_str(minimum_certainty)),
        r is Err ==> (r matches Err(UpstreamError::InvalidCertaintyLevel(s)) && Some(s@) == opt_str(
            minimum_certainty,
        )),
{
    match minimum_certainty {
        Some(t) => match Certainty::parse(t) {
            Some(c) => Ok(Some(c)),
            None => Err(UpstreamError::InvalidCertaintyLevel(String::from_str(t))),
        },
        None => Ok(None),
    }
}

/// The guesses that meet a minimum certainty given by its text, in order;
/// a text that names no level is refused.
pub fn guess_upstream_metadata_items(guesses: Vec<UpstreamDatum>, minimum_certainty: Option<&str>) -> (r:
    Result<Vec<UpstreamDatum>, UpstreamError>)
    requires
        all_wf(guesses@),
    ensures
        r is Ok <==> certainty_ok(opt_str(minimum_certainty)),
        r is Err ==> (r matches Err(UpstreamError::InvalidCertaintyLevel(s)) && Some(s@) == opt_str(
            minimum_certainty,
        )),
        r matches Ok(v) ==> views(v@) == at_least(
            views(guesses@),
            certainty_from(opt_str(minimum_certainty)),
        ),
{
    let minimum = minimum_from(minimum_certainty)?;
    Ok(filter_by_certainty(guesses, minimum))
}

/// Merges into a collection the guesses that meet a minimum certainty
/// given by its text; a text that names no level is refused and the
/// collection is left as it was.
pub fn extend_upstream_metadata(
    metadata: &mut UpstreamMetadata,
    guesses: Vec<UpstreamDatum>,
    minimum_certainty: Option<&str>,
) -> (r: Result<(), UpstreamError>)
    requires
        old(metadata).wf(),
        all_wf(guesses@),
    ensures
        final(metadata).wf(),
        r is Ok <==> certainty_ok(opt_str(minimum_certainty)),
        r is Err ==> (r matches Err(UpstreamError::InvalidCertaintyLevel(s)) && Some(s@) == opt_str(
            minimum_certainty,
        )) && final(metadata)@ == old(metadata)@,
        r is Ok ==> final(metadata)@ == merged(
            old(metadata)@,
            at_least(views(guesses@), certainty_from(opt_str(minimum_certainty))),
        ),
{
    let minimum = match minimum_from(minimum_certainty) {
        Ok(c) => c,
        Err(e) => {
            return Err(e);
        },
    };
    let kept = filter_by_certainty(guesses, minimum);
    update_from_guesses(metadata, kept);
    Ok(())
}

} // verus!

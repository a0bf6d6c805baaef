//! Reconciling a stream of candidate guesses with a collection.
use vstd::prelude::*;
use crate::certainty::{Certainty, rank, rank_of};
use crate::datum::{DatumView, UpstreamDatum, is_known_bad};
use crate::field::Field;
use crate::metadata::{UpstreamMetadata, all_wf, lookup, views};

verus! {

/// Whether a guess replaces the existing entry of its field (or creates
/// one): it is not known to be bad, and there is no entry, or the guess is
/// more certain than the entry, or as certain and different from it (a
/// later guess wins a tie; repeating the entry changes nothing).
pub open spec fn accepts(existing: Option<DatumView>, g: DatumView) -> bool {
    !is_known_bad(g) && match existing {
        None => true,
        Some(e) => rank(g.certainty) > rank(e.certainty) || (rank(g.certainty) == rank(
            e.certainty,
        ) && g != e),
    }
}

/// Whether the collection would take guess `g`.
fn accepts_guess(metadata: &UpstreamMetadata, g: &UpstreamDatum) -> (r: bool)
    requires
        metadata.wf(),
    ensures
        r == accepts(lookup(metadata@, g@.field), g@),
{
    if g.known_bad_guess() {
        return false;
    }
    match metadata.get_field(g.field_kind()) {
        Some(e) => {
            let gr = rank_of(g.certainty_level());
            let er = rank_of(e.certainty_level());
            gr > er || (gr == er && !g.equals(e))
        },
        None => true,
    }
}

/// The collection after one guess.
pub open spec fn merge_step(m: Map<Field, DatumView>, g: DatumView) -> Map<Field, DatumView> {
    if accepts(lookup(m, g.field), g) {
        m.insert(g.field, g)
    } else {
        m
    }
}

/// The collection after a sequence of guesses, taken in order.
pub open spec fn merged(m: Map<Field, DatumView>, gs: Seq<DatumView>) -> Map<Field, DatumView>
    decreases gs.len(),
{
    if gs.len() == 0 {
        m
    } else {
        merged(merge_step(m, gs[0]), gs.drop_first())
    }
}

/// The guesses of a sequence that were accepted, in order.
pub open spec fn accepted(m: Map<Field, DatumView>, gs: Seq<DatumView>) -> Seq<DatumView>
    decreases gs.len(),
{
    if gs.len() == 0 {
        Seq::empty()
    } else {
        let head = if accepts(lookup(m, gs[0].field), gs[0]) {
            seq![gs[0]]
        } else {
            Seq::empty()
        };
        head + accepted(merge_step(m, gs[0]), gs.drop_first())
    }
}

/// Merges guesses, in order, into `metadata`, and returns those that were
/// accepted, in order.
pub fn update_from_guesses(metadata: &mut UpstreamMetadata, guesses: Vec<UpstreamDatum>) -> (r: Vec<
    UpstreamDatum,
>)
    requires
        old(metadata).wf(),
        all_wf(guesses@),
    ensures
        final(metadata).wf(),
        final(metadata)@ == merged(old(metadata)@, views(guesses@)),
        views(r@) == accepted(old(metadata)@, views(guesses@)),
{
    let ghost gs = views(guesses@);
    let ghost m0 = metadata@;
    let mut out: Vec<UpstreamDatum> = Vec::new();
    let mut i: usize = 0;
    proof {
        assert(gs.subrange(0, gs.len() as int) == gs);
        assert(views(out@) == Seq::<DatumView>::empty());
        assert(views(out@) + accepted(m0, gs) == accepted(m0, gs));
    }
    while i < guesses.len()
        invariant
            metadata.wf(),
            all_wf(guesses@),
            gs == views(guesses@),
            i <= gs.len(),
            merged(m0, gs) == merged(metadata@, gs.subrange(i as int, gs.len() as int)),
            accepted(m0, gs) == views(out@) + accepted(metadata@, gs.subrange(i as int, gs.len() as int)),
        decreases gs.len() - i,
    {
        let g = &guesses[i];
        let ghost rest = gs.subrange(i as int, gs.len() as int);
        let ghost m = metadata@;
        proof {
            assert(rest[0] == g@);
            assert(rest.drop_first() == gs.subrange(i + 1, gs.len() as int));
        }
        let take = accepts_guess(metadata, g);
        proof {
            assert(take == accepts(lookup(m, g@.field), g@));
        }
        if take {
            metadata.insert(g.copy());
            out.push(g.copy());
            proof {
                assert(views(out@) == views(out@.drop_last()) + seq![g@]);
            }
        }
        proof {
            assert(metadata@ == merge_step(m, g@));
        }
        i = i + 1;
    }
    proof {
        assert(gs.subrange(gs.len() as int, gs.len() as int) == Seq::<DatumView>::empty());
        assert(views(out@) + Seq::<DatumView>::empty() == views(out@));
    }
    out
}

} // verus!

verus! {

/// A guess that is known to be bad leaves the collection as it is and is
/// not reported, whatever its certainty.
pub proof fn lemma_known_bad_step(m: Map<Field, DatumView>, g: DatumView)
    requires
        is_known_bad(g),
    ensures
        merge_step(m, g) == m,
        accepted(m, seq![g]) == Seq::<DatumView>::empty(),
{
    let gs = seq![g];
    assert(gs[0] == g);
    assert(gs.drop_first() == Seq::<DatumView>::empty());
    assert(accepted(merge_step(m, g), Seq::<DatumView>::empty()) == Seq::<DatumView>::empty());
    assert(merged(merge_step(m, g), Seq::<DatumView>::empty()) == merge_step(m, g));
    assert(Seq::<DatumView>::empty() + Seq::<DatumView>::empty() =~= Seq::<DatumView>::empty());
}

/// No known-bad guess is ever accepted: every accepted guess is not known
/// to be bad, and every entry of the merged collection is either the
/// entry that was there before or not known to be bad.
pub proof fn lemma_known_bad_never_accepted(m: Map<Field, DatumView>, gs: Seq<DatumView>)
    ensures
        forall|i: int|
            0 <= i < accepted(m, gs).len() ==> !is_known_bad(#[trigger] accepted(m, gs)[i]),
        forall|f: Field| #[trigger]
            merged(m, gs).contains_key(f) ==> (m.contains_key(f) && merged(m, gs)[f] == m[f])
                || !is_known_bad(merged(m, gs)[f]),
    decreases gs.len(),
{
    if gs.len() > 0 {
        let m1 = merge_step(m, gs[0]);
        lemma_known_bad_never_accepted(m1, gs.drop_first());
        let head = if accepts(lookup(m, gs[0].field), gs[0]) {
            seq![gs[0]]
        } else {
            Seq::<DatumView>::empty()
        };
        let tail = accepted(m1, gs.drop_first());
        assert(accepted(m, gs) == head + tail);
        assert forall|i: int| 0 <= i < accepted(m, gs).len() implies !is_known_bad(
            #[trigger] accepted(m, gs)[i],
        ) by {
            if i >= head.len() {
                assert(accepted(m, gs)[i] == tail[i - head.len()]);
            }
        }
        assert forall|f: Field| #[trigger]
            merged(m, gs).contains_key(f) implies (m.contains_key(f) && merged(m, gs)[f] == m[f])
                || !is_known_bad(merged(m, gs)[f]) by {
            assert(merged(m, gs) == merged(m1, gs.drop_first()));
            if m1.contains_key(f) && merged(m, gs)[f] == m1[f] {
                if f == gs[0].field && accepts(lookup(m, gs[0].field), gs[0]) {
                    assert(m1[f] == gs[0]);
                }
            }
        }
    }
}

/// A guess strictly less certain than the entry already held for its field
/// changes nothing and is not reported.
pub proof fn lemma_weaker_guess_ignored(m: Map<Field, DatumView>, g: DatumView)
    requires
        m.contains_key(g.field),
        rank(g.certainty) < rank(m[g.field].certainty),
    ensures
        merge_step(m, g) == m,
        merged(m, seq![g]) == m,
        accepted(m, seq![g]) == Seq::<DatumView>::empty(),
{
    let gs = seq![g];
    assert(gs[0] == g);
    assert(gs.drop_first() == Seq::<DatumView>::empty());
    assert(accepted(merge_step(m, g), Seq::<DatumView>::empty()) == Seq::<DatumView>::empty());
    assert(merged(merge_step(m, g), Seq::<DatumView>::empty()) == merge_step(m, g));
    assert(Seq::<DatumView>::empty() + Seq::<DatumView>::empty() =~= Seq::<DatumView>::empty());
}

/// Once a field holds an entry at some certainty, a guess for it that comes
/// after any further guesses and is strictly less certain than that entry
/// changes nothing and is not reported.
pub proof fn lemma_later_weaker_guess_ignored(
    m: Map<Field, DatumView>,
    gs: Seq<DatumView>,
    g: DatumView,
)
    requires
        m.contains_key(g.field),
        rank(g.certainty) < rank(m[g.field].certainty),
    ensures
        merged(m, gs.push(g)) == merged(m, gs),
        accepted(m, gs.push(g)) == accepted(m, gs),
    decreases gs.len(),
{
    if gs.len() == 0 {
        assert(gs.push(g) == seq![g]);
        lemma_weaker_guess_ignored(m, g);
        assert(accepted(m, gs) == Seq::<DatumView>::empty());
    } else {
        let m1 = merge_step(m, gs[0]);
        assert(gs.push(g)[0] == gs[0]);
        assert(gs.push(g).drop_first() == gs.drop_first().push(g));
        lemma_certainty_never_drops(m, seq![gs[0]], g.field);
        assert(seq![gs[0]].drop_first() == Seq::<DatumView>::empty());
        assert(merged(m, seq![gs[0]]) == merged(m1, Seq::<DatumView>::empty()));
        lemma_later_weaker_guess_ignored(m1, gs.drop_first(), g);
    }
}

/// The certainty held for a field never drops while guesses are merged.
pub proof fn lemma_certainty_never_drops(m: Map<Field, DatumView>, gs: Seq<DatumView>, f: Field)
    requires
        m.contains_key(f),
    ensures
        merged(m, gs).contains_key(f),
        rank(merged(m, gs)[f].certainty) >= rank(m[f].certainty),
    decreases gs.len(),
{
    if gs.len() > 0 {
        lemma_certainty_never_drops(merge_step(m, gs[0]), gs.drop_first(), f);
    }
}

/// A field that no accepted guess names keeps its entry.
proof fn lemma_untouched_field(m: Map<Field, DatumView>, gs: Seq<DatumView>, f: Field)
    requires
        forall|i: int| 0 <= i < accepted(m, gs).len() ==> (#[trigger] accepted(m, gs)[i]).field != f,
    ensures
        lookup(merged(m, gs), f) == lookup(m, f),
    decreases gs.len(),
{
    if gs.len() > 0 {
        let m1 = merge_step(m, gs[0]);
        let rest = gs.drop_first();
        let head = if accepts(lookup(m, gs[0].field), gs[0]) {
            seq![gs[0]]
        } else {
            Seq::<DatumView>::empty()
        };
        assert(accepted(m, gs) == head + accepted(m1, rest));
        if head.len() == 1 {
            assert(accepted(m, gs)[0] == gs[0]);
        }
        assert forall|i: int| 0 <= i < accepted(m1, rest).len() implies (#[trigger] accepted(
            m1,
            rest,
        )[i]).field != f by {
            assert(accepted(m, gs)[i + head.len()] == accepted(m1, rest)[i]);
        }
        lemma_untouched_field(m1, rest, f);
    }
}

/// No later element of `acc` has the field of element `i`.
pub open spec fn last_for_field(acc: Seq<DatumView>, i: int) -> bool {
    forall|j: int| i < j < acc.len() ==> (#[trigger] acc[j]).field != acc[i].field
}

/// No element of `acc` has field `f`.
pub open spec fn not_named(acc: Seq<DatumView>, f: Field) -> bool {
    forall|i: int| 0 <= i < acc.len() ==> (#[trigger] acc[i]).field != f
}

/// Element `i` of `acc`, replayed onto `m`, is bound to agree with `target`.
pub open spec fn ready_at(
    m: Map<Field, DatumView>,
    target: Map<Field, DatumView>,
    acc: Seq<DatumView>,
    i: int,
) -> bool {
    let f = acc[i].field;
    &&& m.contains_key(f)
    &&& target.contains_key(f)
    &&& rank(m[f].certainty) == rank(target[f].certainty)
    &&& rank(acc[i].certainty) <= rank(target[f].certainty)
    &&& !is_known_bad(acc[i])
    &&& (last_for_field(acc, i) ==> acc[i] == target[f])
}

/// Replaying `acc` onto `m` is bound to end in `target`.
pub open spec fn replay_ready(
    m: Map<Field, DatumView>,
    target: Map<Field, DatumView>,
    acc: Seq<DatumView>,
) -> bool {
    &&& forall|f: Field| #[trigger] not_named(acc, f) ==> lookup(m, f) == lookup(target, f)
    &&& forall|i: int| 0 <= i < acc.len() ==> #[trigger] ready_at(m, target, acc, i)
}

proof fn lemma_last_shift(acc: Seq<DatumView>, i: int)
    requires
        1 <= i < acc.len(),
    ensures
        last_for_field(acc, i) == last_for_field(acc.drop_first(), i - 1),
{
    let rest = acc.drop_first();
    if last_for_field(acc, i) {
        assert forall|j: int| i - 1 < j < rest.len() implies (#[trigger] rest[j]).field
            != rest[i - 1].field by {
            assert(rest[j] == acc[j + 1]);
        }
    }
    if last_for_field(rest, i - 1) {
        assert forall|j: int| i < j < acc.len() implies (#[trigger] acc[j]).field != acc[i].field by {
            assert(rest[j - 1] == acc[j]);
        }
    }
}

proof fn lemma_replay(m: Map<Field, DatumView>, target: Map<Field, DatumView>, acc: Seq<DatumView>)
    requires
        replay_ready(m, target, acc),
    ensures
        merged(m, acc) == target,
    decreases acc.len(),
{
    if acc.len() == 0 {
        assert forall|f: Field| #[trigger] m.contains_key(f) == target.contains_key(f) by {
            assert(not_named(acc, f));
        }
        assert forall|f: Field| #[trigger] m.contains_key(f) implies m[f] == target[f] by {
            assert(not_named(acc, f));
        }
        assert(m =~= target);
    } else {
        let g = acc[0];
        let f = g.field;
        let rest = acc.drop_first();
        let m1 = merge_step(m, g);
        assert(ready_at(m, target, acc, 0));
        assert(accepts(lookup(m, f), g) <==> (rank(g.certainty) == rank(target[f].certainty) && g
            != m[f]));
        assert(m1.contains_key(f) && rank(m1[f].certainty) == rank(m[f].certainty));
        assert forall|h: Field| #[trigger] not_named(rest, h) implies lookup(m1, h) == lookup(
            target,
            h,
        ) by {
            if h == f {
                assert forall|j: int| 0 < j < acc.len() implies (#[trigger] acc[j]).field
                    != acc[0].field by {
                    assert(rest[j - 1] == acc[j]);
                }
                assert(last_for_field(acc, 0));
            } else {
                assert forall|i: int| 0 <= i < acc.len() implies (#[trigger] acc[i]).field != h by {
                    if i > 0 {
                        assert(rest[i - 1] == acc[i]);
                    }
                }
                assert(not_named(acc, h));
            }
        }
        assert forall|i: int| 0 <= i < rest.len() implies #[trigger] ready_at(m1, target, rest, i) by {
            assert(rest[i] == acc[i + 1]);
            assert(ready_at(m, target, acc, i + 1));
            lemma_last_shift(acc, i + 1);
        }
        lemma_replay(m1, target, rest);
    }
}

proof fn lemma_merge_is_replay_ready(m: Map<Field, DatumView>, gs: Seq<DatumView>)
    ensures
        replay_ready(merged(m, gs), merged(m, gs), accepted(m, gs)),
    decreases gs.len(),
{
    if gs.len() > 0 {
        let g = gs[0];
        let f = g.field;
        let rest = gs.drop_first();
        let m1 = merge_step(m, g);
        let t = merged(m1, rest);
        let tail = accepted(m1, rest);
        lemma_merge_is_replay_ready(m1, rest);
        assert(merged(m, gs) == t);
        if accepts(lookup(m, f), g) {
            let acc = seq![g] + tail;
            assert(accepted(m, gs) == acc);
            assert(acc.drop_first() == tail);
            lemma_certainty_never_drops(m1, rest, f);
            assert forall|i: int| 0 <= i < acc.len() implies #[trigger] ready_at(t, t, acc, i) by {
                if i == 0 {
                    if last_for_field(acc, 0) {
                        assert forall|j: int| 0 <= j < tail.len() implies (#[trigger] tail[j]).field
                            != f by {
                            assert(acc[j + 1] == tail[j]);
                        }
                        lemma_untouched_field(m1, rest, f);
                    }
                } else {
                    assert(acc[i] == tail[i - 1]);
                    assert(ready_at(t, t, tail, i - 1));
                    lemma_last_shift(acc, i);
                }
            }
        } else {
            assert(accepted(m, gs) == Seq::<DatumView>::empty() + tail);
            assert(accepted(m, gs) == tail);
        }
    }
}

/// Replaying the accepted guesses of a merge onto its result leaves the
/// collection unchanged.
pub proof fn lemma_replay_keeps_collection(m: Map<Field, DatumView>, gs: Seq<DatumView>)
    ensures
        merged(merged(m, gs), accepted(m, gs)) == merged(m, gs),
{
    lemma_merge_is_replay_ready(m, gs);
    lemma_replay(merged(m, gs), merged(m, gs), accepted(m, gs));
}

} // verus!

verus! {

/// Whether a guess is at least as certain as a minimum.
pub open spec fn meets(g: DatumView, minimum: Option<Certainty>) -> bool {
    rank(g.certainty) >= rank(minimum)
}

/// The guesses that meet a minimum certainty, in order.
pub open spec fn at_least(gs: Seq<DatumView>, minimum: Option<Certainty>) -> Seq<DatumView> {
    gs.filter(meets_fn(minimum))
}

pub open spec fn meets_fn(minimum: Option<Certainty>) -> spec_fn(DatumView) -> bool {
    |g: DatumView| meets(g, minimum)
}

/// A guess whose certainty is missing takes the default.
pub open spec fn with_default(g: DatumView, c: Option<Certainty>) -> DatumView {
    if g.certainty is None {
        DatumView { certainty: c, ..g }
    } else {
        g
    }
}

pub open spec fn all_with_default(gs: Seq<DatumView>, c: Option<Certainty>) -> Seq<DatumView> {
    gs.map_values(|g: DatumView| with_default(g, c))
}

/// The guesses that are at least as certain as `minimum`, in order.
pub fn filter_by_certainty(guesses: Vec<UpstreamDatum>, minimum: Option<Certainty>) -> (r: Vec<
    UpstreamDatum,
>)
    requires
        all_wf(guesses@),
    ensures
        all_wf(r@),
        views(r@) == at_least(views(guesses@), minimum),
{
    let ghost gs = views(guesses@);
    let floor = rank_of(minimum);
    let mut out: Vec<UpstreamDatum> = Vec::new();
    let mut i: usize = 0;
    while i < guesses.len()
        invariant
            gs == views(guesses@),
            i <= gs.len(),
            floor as nat == rank(minimum),
            all_wf(guesses@),
            all_wf(out@),
            views(out@) == at_least(gs.subrange(0, i as int), minimum),
        decreases gs.len() - i,
    {
        let ghost pre = gs.subrange(0, i as int);
        let ghost next = gs.subrange(0, i + 1);
        proof {
            assert(next.drop_last() == pre);
            assert(next.last() == guesses@[i as int]@);
            assert(next.len() == i + 1);
            reveal_with_fuel(Seq::<DatumView>::filter, 1);
            assert(meets_fn(minimum)(next.last()) == meets(next.last(), minimum));
            assert(at_least(next, minimum) == if meets(next.last(), minimum) {
                at_least(pre, minimum).push(next.last())
            } else {
                at_least(pre, minimum)
            });
        }
        if rank_of(guesses[i].certainty_level()) >= floor {
            out.push(guesses[i].copy());
            proof {
                assert(views(out@) == views(out@.drop_last()).push(out@.last()@));
            }
        }
        i = i + 1;
    }
    proof {
        assert(gs.subrange(0, gs.len() as int) == gs);
    }
    out
}

/// Whether at least two data of `gs` name field `f`.
pub open spec fn named_twice(gs: Seq<DatumView>, f: Field) -> bool {
    exists|i: int, j: int|
        0 <= i < gs.len() && 0 <= j < gs.len() && i != j && #[trigger] gs[i].field == f
            && #[trigger] gs[j].field == f
}

/// The collection after one datum of a bulk build of `all`: a field that
/// `all` names once takes the datum as given; a repeated field follows the
/// merge rule from its first datum on.
pub open spec fn build_step(m: Map<Field, DatumView>, g: DatumView, all: Seq<DatumView>) -> Map<
    Field,
    DatumView,
> {
    if named_twice(all, g.field) {
        merge_step(m, g)
    } else {
        m.insert(g.field, g)
    }
}

/// The collection after the data `gs` of a bulk build of `all`, in order.
pub open spec fn built(m: Map<Field, DatumView>, gs: Seq<DatumView>, all: Seq<DatumView>) -> Map<
    Field,
    DatumView,
>
    decreases gs.len(),
{
    if gs.len() == 0 {
        m
    } else {
        built(build_step(m, gs[0], all), gs.drop_first(), all)
    }
}

proof fn lemma_built_untouched(
    m: Map<Field, DatumView>,
    gs: Seq<DatumView>,
    all: Seq<DatumView>,
    f: Field,
)
    requires
        forall|i: int| 0 <= i < gs.len() ==> (#[trigger] gs[i]).field != f,
    ensures
        lookup(built(m, gs, all), f) == lookup(m, f),
    decreases gs.len(),
{
    if gs.len() > 0 {
        let rest = gs.drop_first();
        assert forall|i: int| 0 <= i < rest.len() implies (#[trigger] rest[i]).field != f by {
            assert(rest[i] == gs[i + 1]);
        }
        lemma_built_untouched(build_step(m, gs[0], all), rest, all, f);
    }
}

proof fn lemma_built_single(
    m: Map<Field, DatumView>,
    gs: Seq<DatumView>,
    all: Seq<DatumView>,
    i: int,
)
    requires
        0 <= i < gs.len(),
        !named_twice(all, gs[i].field),
        forall|j: int| 0 <= j < gs.len() && j != i ==> (#[trigger] gs[j]).field != gs[i].field,
    ensures
        built(m, gs, all).contains_key(gs[i].field),
        built(m, gs, all)[gs[i].field] == gs[i],
    decreases gs.len(),
{
    let f = gs[i].field;
    let rest = gs.drop_first();
    let m1 = build_step(m, gs[0], all);
    if i == 0 {
        assert forall|j: int| 0 <= j < rest.len() implies (#[trigger] rest[j]).field != f by {
            assert(rest[j] == gs[j + 1]);
        }
        lemma_built_untouched(m1, rest, all, f);
    } else {
        assert(rest[i - 1] == gs[i]);
        assert forall|j: int| 0 <= j < rest.len() && j != i - 1 implies (#[trigger] rest[j]).field
            != rest[i - 1].field by {
            assert(rest[j] == gs[j + 1]);
        }
        lemma_built_single(m1, rest, all, i - 1);
    }
}

/// For a field that `all` repeats, a bulk build keeps what merging the same
/// data as guesses keeps.
proof fn lemma_built_repeated(
    m1: Map<Field, DatumView>,
    m2: Map<Field, DatumView>,
    gs: Seq<DatumView>,
    all: Seq<DatumView>,
    f: Field,
)
    requires
        named_twice(all, f),
        lookup(m1, f) == lookup(m2, f),
    ensures
        lookup(built(m1, gs, all), f) == lookup(merged(m2, gs), f),
    decreases gs.len(),
{
    if gs.len() > 0 {
        let g = gs[0];
        let n1 = build_step(m1, g, all);
        let n2 = merge_step(m2, g);
        if g.field == f {
            assert(n1 == merge_step(m1, g));
        }
        assert(lookup(n1, f) == lookup(n2, f));
        lemma_built_repeated(n1, n2, gs.drop_first(), all, f);
    }
}

/// Whether some other datum of `v` names the field of datum `i`.
fn field_repeated(v: &Vec<UpstreamDatum>, i: usize) -> (r: bool)
    requires
        i < v@.len(),
    ensures
        r == exists|j: int| 0 <= j < v@.len() && j != i && (#[trigger] v@[j])@.field == v@[i as int]@.field,
{
    let f = v[i].field_kind();
    let mut j: usize = 0;
    while j < v.len()
        invariant
            i < v@.len(),
            f == v@[i as int]@.field,
            j <= v@.len(),
            forall|k: int| 0 <= k < j && k != i ==> (#[trigger] v@[k])@.field != f,
        decreases v@.len() - j,
    {
        if j != i && v[j].field_kind() == f {
            return true;
        }
        j = j + 1;
    }
    false
}

impl UpstreamMetadata {
    /// Builds a collection from annotated data. A datum without certainty
    /// takes `default_certainty`. A field given once is stored as given; the
    /// data of a repeated field are merged as guesses are, from the first on,
    /// so that the collection keeps for it what `update_from_guesses` keeps.
    pub fn from_dict(entries: Vec<UpstreamDatum>, default_certainty: Option<Certainty>) -> (r:
        UpstreamMetadata)
        requires
            all_wf(entries@),
        ensures
            r.wf(),
            r@ == built(
                Map::<Field, DatumView>::empty(),
                all_with_default(views(entries@), default_certainty),
                all_with_default(views(entries@), default_certainty),
            ),
            forall|i: int|
                0 <= i < entries@.len() && (forall|j: int|
                    0 <= j < entries@.len() && j != i ==> (#[trigger] entries@[j])@.field
                        != entries@[i]@.field) ==> r@.contains_key((#[trigger] entries@[i])@.field)
                    && r@[entries@[i]@.field] == with_default(entries@[i]@, default_certainty),
            forall|f: Field|
                named_twice(views(entries@), f) ==> #[trigger] lookup(r@, f) == lookup(
                    merged(
                        Map::<Field, DatumView>::empty(),
                        all_with_default(views(entries@), default_certainty),
                    ),
                    f,
                ),
            forall|f: Field|
                (forall|i: int| 0 <= i < entries@.len() ==> (#[trigger] entries@[i])@.field != f)
                    ==> !r@.contains_key(f),
    {
        let ghost es = views(entries@);
        let ghost ds = all_with_default(es, default_certainty);
        let ghost m0 = Map::<Field, DatumView>::empty();
        let mut r = UpstreamMetadata::new();
        let mut i: usize = 0;
        proof {
            assert(ds.subrange(0, ds.len() as int) == ds);
        }
        while i < entries.len()
            invariant
                r.wf(),
                all_wf(entries@),
                es == views(entries@),
                ds == all_with_default(es, default_certainty),
                ds.len() == es.len(),
                i <= es.len(),
                built(m0, ds, ds) == built(r@, ds.subrange(i as int, ds.len() as int), ds),
            decreases es.len() - i,
        {
            let repeated = field_repeated(&entries, i);
            let mut d = entries[i].copy();
            if d.certainty_level().is_none() {
                d.set_certainty_level(default_certainty);
            }
            proof {
                let rest = ds.subrange(i as int, ds.len() as int);
                assert(d@ == ds[i as int]);
                assert(rest[0] == ds[i as int]);
                assert(rest.drop_first() == ds.subrange(i + 1, ds.len() as int));
                let f = ds[i as int].field;
                if repeated {
                    let j = choose|j: int|
                        0 <= j < entries@.len() && j != i && (#[trigger] entries@[j])@.field
                            == entries@[i as int]@.field;
                    assert(ds[j].field == f);
                    assert(named_twice(ds, f));
                } else if named_twice(ds, f) {
                    let (a, b) = choose|a: int, b: int|
                        0 <= a < ds.len() && 0 <= b < ds.len() && a != b && #[trigger] ds[a].field
                            == f && #[trigger] ds[b].field == f;
                    if a != i {
                        assert(entries@[a]@.field == entries@[i as int]@.field);
                    } else {
                        assert(entries@[b]@.field == entries@[i as int]@.field);
                    }
                }
            }
            let ghost m = r@;
            if !repeated || accepts_guess(&r, &d) {
                r.insert(d);
            }
            proof {
                assert(r@ == build_step(m, ds[i as int], ds));
            }
            i = i + 1;
        }
        proof {
            assert(ds.subrange(ds.len() as int, ds.len() as int) == Seq::<DatumView>::empty());
            assert forall|i: int|
                0 <= i < entries@.len() && (forall|j: int|
                    0 <= j < entries@.len() && j != i ==> (#[trigger] entries@[j])@.field
                        != entries@[i]@.field) implies r@.contains_key(
                (#[trigger] entries@[i])@.field,
            ) && r@[entries@[i]@.field] == with_default(entries@[i]@, default_certainty) by {
                assert forall|j: int| 0 <= j < ds.len() && j != i implies (#[trigger] ds[j]).field
                    != ds[i].field by {
                    assert(entries@[j]@.field != entries@[i]@.field);
                }
                if named_twice(ds, ds[i].field) {
                    let (a, b) = choose|a: int, b: int|
                        0 <= a < ds.len() && 0 <= b < ds.len() && a != b && #[trigger] ds[a].field
                            == ds[i].field && #[trigger] ds[b].field == ds[i].field;
                    assert(a == i && b == i);
                }
                lemma_built_single(m0, ds, ds, i);
            }
            assert forall|f: Field| named_twice(views(entries@), f) implies #[trigger] lookup(r@, f)
                == lookup(merged(m0, ds), f) by {
                let (a, b) = choose|a: int, b: int|
                    0 <= a < es.len() && 0 <= b < es.len() && a != b && #[trigger] es[a].field == f
                        && #[trigger] es[b].field == f;
                assert(ds[a].field == f && ds[b].field == f);
                assert(named_twice(ds, f));
                lemma_built_repeated(m0, m0, ds, ds, f);
            }
            assert forall|f: Field|
                (forall|i: int| 0 <= i < entries@.len() ==> (#[trigger] entries@[i])@.field != f)
                    implies !r@.contains_key(f) by {
                assert forall|i: int| 0 <= i < ds.len() implies (#[trigger] ds[i]).field != f by {
                    assert(entries@[i]@.field != f);
                }
                lemma_built_untouched(m0, ds, ds, f);
            }
        }
        r
    }
}

} // verus!

verus! {

proof fn lemma_quiet_replay(t: Map<Field, DatumView>, acc: Seq<DatumView>)
    requires
        forall|i: int|
            0 <= i < acc.len() ==> {
                let f = (#[trigger] acc[i]).field;
                &&& t.contains_key(f)
                &&& rank(acc[i].certainty) <= rank(t[f].certainty)
                &&& !is_known_bad(acc[i])
                &&& (rank(acc[i].certainty) == rank(t[f].certainty) ==> acc[i] == t[f])
            },
    ensures
        merged(t, acc) == t,
        accepted(t, acc) == Seq::<DatumView>::empty(),
    decreases acc.len(),
{
    if acc.len() > 0 {
        let rest = acc.drop_first();
        assert(merge_step(t, acc[0]) == t);
        assert forall|i: int| 0 <= i < rest.len() implies {
            let f = (#[trigger] rest[i]).field;
            &&& t.contains_key(f)
            &&& rank(rest[i].certainty) <= rank(t[f].certainty)
            &&& !is_known_bad(rest[i])
            &&& (rank(rest[i].certainty) == rank(t[f].certainty) ==> rest[i] == t[f])
        } by {
            assert(rest[i] == acc[i + 1]);
        }
        lemma_quiet_replay(t, rest);
        assert(accepted(t, acc) == Seq::<DatumView>::empty() + accepted(t, rest));
    }
}

/// Replaying the accepted guesses of a merge onto its result accepts
/// nothing and changes nothing, provided every accepted guess that is as
/// certain as the final entry of its field is that entry. (Without that
/// proviso a replay does report guesses: two different guesses for a field
/// at the same certainty are both accepted, and replayed they take turns.)
pub proof fn lemma_replay_accepts_nothing(m: Map<Field, DatumView>, gs: Seq<DatumView>)
    requires
        forall|i: int|
            0 <= i < accepted(m, gs).len() && rank(#[trigger] accepted(m, gs)[i].certainty) == rank(
                merged(m, gs)[accepted(m, gs)[i].field].certainty,
            ) ==> accepted(m, gs)[i] == merged(m, gs)[accepted(m, gs)[i].field],
    ensures
        merged(merged(m, gs), accepted(m, gs)) == merged(m, gs),
        accepted(merged(m, gs), accepted(m, gs)) == Seq::<DatumView>::empty(),
{
    let t = merged(m, gs);
    let acc = accepted(m, gs);
    lemma_merge_is_replay_ready(m, gs);
    assert forall|i: int| 0 <= i < acc.len() implies {
        let f = (#[trigger] acc[i]).field;
        &&& t.contains_key(f)
        &&& rank(acc[i].certainty) <= rank(t[f].certainty)
        &&& !is_known_bad(acc[i])
        &&& (rank(acc[i].certainty) == rank(t[f].certainty) ==> acc[i] == t[f])
    } by {
        assert(ready_at(t, t, acc, i));
    }
    lemma_quiet_replay(t, acc);
}

} // verus!

verus! {

/// Whatever the order of the guesses, the entry kept for a field is at
/// least as certain as the entry it started with and as every guess for
/// the field that is not known to be bad, and it is one of these.
pub proof fn lemma_keeps_most_certain(m: Map<Field, DatumView>, gs: Seq<DatumView>, f: Field)
    requires
        m.contains_key(f) || exists|i: int|
            0 <= i < gs.len() && (#[trigger] gs[i]).field == f && !is_known_bad(gs[i]),
    ensures
        merged(m, gs).contains_key(f),
        m.contains_key(f) ==> rank(merged(m, gs)[f].certainty) >= rank(m[f].certainty),
        forall|i: int|
            0 <= i < gs.len() && (#[trigger] gs[i]).field == f && !is_known_bad(gs[i]) ==> rank(
                merged(m, gs)[f].certainty,
            ) >= rank(gs[i].certainty),
        (m.contains_key(f) && merged(m, gs)[f] == m[f]) || exists|i: int|
            0 <= i < gs.len() && merged(m, gs)[f] == #[trigger] gs[i],
    decreases gs.len(),
{
    if gs.len() > 0 {
        let g = gs[0];
        let rest = gs.drop_first();
        let m1 = merge_step(m, g);
        let t = merged(m, gs);
        assert(t == merged(m1, rest));
        if g.field == f && !is_known_bad(g) {
            assert(m1.contains_key(f) && rank(m1[f].certainty) >= rank(g.certainty));
        }
        if !m1.contains_key(f) {
            let i = choose|i: int|
                0 <= i < gs.len() && (#[trigger] gs[i]).field == f && !is_known_bad(gs[i]);
            assert(i > 0);
            assert(rest[i - 1] == gs[i]);
        }
        lemma_keeps_most_certain(m1, rest, f);
        assert forall|i: int|
            0 <= i < gs.len() && (#[trigger] gs[i]).field == f && !is_known_bad(gs[i]) implies rank(
            t[f].certainty,
        ) >= rank(gs[i].certainty) by {
            if i > 0 {
                assert(rest[i - 1] == gs[i]);
            }
        }
        if m1.contains_key(f) && t[f] == m1[f] {
            if !(m.contains_key(f) && m1[f] == m[f]) {
                assert(t[f] == gs[0]);
            }
        } else {
            let i = choose|i: int| 0 <= i < rest.len() && t[f] == #[trigger] rest[i];
            assert(gs[i + 1] == rest[i]);
        }
    }
}

/// Guesses for one field, none known to be bad and all at different
/// certainties, leave the most certain of them as the entry, in whatever
/// order they come.
pub proof fn lemma_most_certain_wins(gs: Seq<DatumView>, f: Field, k: int)
    requires
        0 <= k < gs.len(),
        forall|i: int| 0 <= i < gs.len() ==> (#[trigger] gs[i]).field == f && !is_known_bad(gs[i]),
        forall|i: int, j: int|
            0 <= i < gs.len() && 0 <= j < gs.len() && i != j ==> rank(#[trigger] gs[i].certainty)
                != rank(#[trigger] gs[j].certainty),
        forall|i: int| 0 <= i < gs.len() ==> rank(#[trigger] gs[i].certainty) <= rank(gs[k].certainty),
    ensures
        merged(Map::<Field, DatumView>::empty(), gs).contains_key(f),
        merged(Map::<Field, DatumView>::empty(), gs)[f] == gs[k],
{
    let m = Map::<Field, DatumView>::empty();
    lemma_keeps_most_certain(m, gs, f);
    let t = merged(m, gs);
    let i = choose|i: int| 0 <= i < gs.len() && t[f] == #[trigger] gs[i];
    assert(rank(t[f].certainty) >= rank(gs[k].certainty));
    if i != k {
        assert(rank(gs[i].certainty) != rank(gs[k].certainty));
    }
}

} // verus!

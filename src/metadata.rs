use vstd::prelude::*;
use vstd::string::*;
use crate::datum::{DatumView, UpstreamDatum, datum_wf};
use crate::field::{
    FIELD_COUNT,
    Field,
    field_index,
    field_name,
    field_of_name,
    lemma_field_index,
    lemma_field_index_injective,
};

verus! {

/// The entry of `m` for `f`, if any.
pub open spec fn lookup(m: Map<Field, DatumView>, f: Field) -> Option<DatumView> {
    if m.contains_key(f) {
        Some(m[f])
    } else {
        None
    }
}

/// Whether a sequence of data lists exactly the entries of `m`, each once,
/// in declaration order of their fields.
pub open spec fn lists_in_order(s: Seq<DatumView>, m: Map<Field, DatumView>) -> bool {
    &&& forall|i: int| 0 <= i < s.len() ==> lookup(m, #[trigger] s[i].field) == Some(s[i])
    &&& forall|f: Field| #[trigger] m.contains_key(f) ==> exists|i: int| 0 <= i < s.len() && s[i].field == f
    &&& forall|i: int, j: int|
        0 <= i < j < s.len() ==> field_index(#[trigger] s[i].field) < field_index(#[trigger] s[j].field)
}

/// Every datum of a sequence has a value of its field's shape.
pub open spec fn all_wf(s: Seq<UpstreamDatum>) -> bool {
    forall|i: int| 0 <= i < s.len() ==> (#[trigger] s[i]).wf()
}

pub open spec fn views(s: Seq<UpstreamDatum>) -> Seq<DatumView> {
    s.map_values(|d: UpstreamDatum| d@)
}

pub open spec fn pair_views(s: Seq<(String, UpstreamDatum)>) -> Seq<DatumView> {
    s.map_values(|p: (String, UpstreamDatum)| p.1@)
}

/// A collection of metadata holding at most one datum per field.
pub struct UpstreamMetadata {
    slots: Vec<Option<UpstreamDatum>>,
}

impl View for UpstreamMetadata {
    type V = Map<Field, DatumView>;

    closed spec fn view(&self) -> Map<Field, DatumView> {
        Map::new(
            |f: Field| self.slots@[field_index(f) as int] is Some,
            |f: Field| self.slots@[field_index(f) as int]->0@,
        )
    }
}

impl UpstreamMetadata {
    /// One slot per field, each holding only a well-formed datum of its own
    /// field.
    pub closed spec fn wf(&self) -> bool {
        &&& self.slots@.len() == FIELD_COUNT
        &&& forall|i: int|
            0 <= i < FIELD_COUNT && #[trigger] self.slots@[i] is Some ==> field_index(
                self.slots@[i]->0@.field,
            ) == i && self.slots@[i]->0.wf()
    }

    /// Every entry of a well-formed collection has a value of its field's
    /// shape.
    pub proof fn lemma_entries_wf(&self)
        requires
            self.wf(),
        ensures
            forall|f: Field| #[trigger] self@.contains_key(f) ==> datum_wf(self@[f]),
    {
    }

    /// An empty collection.
    pub fn new() -> (r: UpstreamMetadata)
        ensures
            r.wf(),
            r@ == Map::<Field, DatumView>::empty(),
    {
        let mut slots: Vec<Option<UpstreamDatum>> = Vec::new();
        let mut i: usize = 0;
        while i < FIELD_COUNT
            invariant
                i <= FIELD_COUNT,
                slots@.len() == i,
                forall|j: int| 0 <= j < i ==> #[trigger] slots@[j] is None,
            decreases FIELD_COUNT - i,
        {
            slots.push(None);
            i = i + 1;
        }
        let r = UpstreamMetadata { slots };
        proof {
            lemma_field_index_injective();
            assert forall|f: Field| !r@.contains_key(f) by {
                lemma_field_index(f);
            }
            assert(r@ =~= Map::<Field, DatumView>::empty());
        }
        r
    }

    /// The entry for a field, if any.
    pub fn get_field(&self, f: Field) -> (r: Option<&UpstreamDatum>)
        requires
            self.wf(),
        ensures
            r is Some <==> self@.contains_key(f),
            r matches Some(d) ==> d@ == self@[f] && d@.field == f && d.wf(),
    {
        proof {
            lemma_field_index(f);
        }
        match &self.slots[f.index()] {
            Some(d) => Some(d),
            None => None,
        }
    }

    /// The entry for the field of the given name; `None` where the name is
    /// not a field or the field has no entry.
    pub fn get(&self, field: &str) -> (r: Option<&UpstreamDatum>)
        requires
            self.wf(),
        ensures
            r is Some <==> (field_of_name(field@) matches Some(f) && self@.contains_key(f)),
            r matches Some(d) ==> field_of_name(field@) == Some(d@.field) && d@ == self@[d@.field],
    {
        match Field::from_name(field) {
            Some(f) => self.get_field(f),
            None => None,
        }
    }

    /// Whether the field of the given name has an entry.
    pub fn contains(&self, field: &str) -> (r: bool)
        requires
            self.wf(),
        ensures
            r == (field_of_name(field@) matches Some(f) && self@.contains_key(f)),
    {
        self.get(field).is_some()
    }

    /// Stores a datum under its own field, replacing any earlier entry.
    pub fn insert(&mut self, d: UpstreamDatum)
        requires
            old(self).wf(),
            d.wf(),
        ensures
            final(self).wf(),
            final(self)@ == old(self)@.insert(d@.field, d@),
    {
        let ghost f = d@.field;
        let i = d.field_kind().index();
        self.slots.set(i, Some(d));
        proof {
            lemma_field_index_injective();
            assert(self@ =~= old(self)@.insert(f, d@));
        }
    }

    /// Stores a datum under the field of the given name, which must be the
    /// datum's own.
    pub fn set(&mut self, field: &str, d: UpstreamDatum)
        requires
            old(self).wf(),
            d.wf(),
            field_of_name(field@) == Some(d@.field),
        ensures
            final(self).wf(),
            final(self)@ == old(self)@.insert(d@.field, d@),
    {
        self.insert(d);
    }

    /// Removes the entry of a field, if any.
    pub fn remove_field(&mut self, f: Field)
        requires
            old(self).wf(),
        ensures
            final(self).wf(),
            final(self)@ == old(self)@.remove(f),
    {
        let i = f.index();
        self.slots.set(i, None);
        proof {
            lemma_field_index_injective();
            assert(self@ =~= old(self)@.remove(f));
        }
    }

    /// Removes the entry of the field of the given name; a name that is not
    /// a field changes nothing.
    pub fn remove(&mut self, field: &str)
        requires
            old(self).wf(),
        ensures
            final(self).wf(),
            field_of_name(field@) matches Some(f) ==> final(self)@ == old(self)@.remove(f),
            field_of_name(field@) is None ==> final(self)@ == old(self)@,
    {
        match Field::from_name(field) {
            Some(f) => self.remove_field(f),
            None => {},
        }
    }

    /// Copies of the entries, in declaration order of their fields.
    pub fn values(&self) -> (r: Vec<UpstreamDatum>)
        requires
            self.wf(),
        ensures
            lists_in_order(views(r@), self@),
    {
        proof {
            lemma_field_index_injective();
        }
        let mut out: Vec<UpstreamDatum> = Vec::new();
        let mut i: usize = 0;
        while i < FIELD_COUNT
            invariant
                i <= FIELD_COUNT,
                self.slots@.len() == FIELD_COUNT,
                forall|k: int|
                    0 <= k < FIELD_COUNT && #[trigger] self.slots@[k] is Some ==> field_index(
                        self.slots@[k]->0@.field,
                    ) == k,
                forall|k: int| 0 <= k < out@.len() ==> lookup(self@, #[trigger] out@[k]@.field) == Some(out@[k]@),
                forall|k: int| 0 <= k < out@.len() ==> field_index(#[trigger] out@[k]@.field) < i,
                forall|f: Field|
                    #[trigger] self@.contains_key(f) && field_index(f) < i ==> exists|k: int|
                        0 <= k < out@.len() && out@[k]@.field == f,
                forall|k: int, j: int|
                    0 <= k < j < out@.len() ==> field_index(#[trigger] out@[k]@.field) < field_index(
                        #[trigger] out@[j]@.field,
                    ),
            decreases FIELD_COUNT - i,
        {
            match &self.slots[i] {
                Some(d) => {
                    let ghost f = d@.field;
                    let ghost old_out = out@;
                    proof {
                        assert(self@.contains_key(f));
                        assert(forall|g: Field|
                            #[trigger] self@.contains_key(g) && field_index(g) < i ==> exists|k: int|
                                0 <= k < old_out.len() && old_out[k]@.field == g);
                    }
                    out.push(d.copy());
                    proof {
                        let n = out@.len() - 1;
                        assert(out@[n]@.field == f);
                        assert forall|g: Field|
                            #[trigger] self@.contains_key(g) && field_index(g) < i + 1 implies exists|k: int|
                                0 <= k < out@.len() && out@[k]@.field == g by {
                            if field_index(g) == i {
                                assert(g == f);
                                assert(out@[n]@.field == g);
                            } else {
                                assert(self@.contains_key(g) && field_index(g) < i);
                                let k = choose|k: int| 0 <= k < old_out.len() && old_out[k]@.field == g;
                                assert(out@[k] == old_out[k]);
                                assert(out@[k]@.field == g);
                            }
                        }
                    }
                },
                None => {
                    proof {
                        assert forall|g: Field|
                            #[trigger] self@.contains_key(g) && field_index(g) < i + 1 implies exists|k: int|
                                0 <= k < out@.len() && out@[k]@.field == g by {
                            if field_index(g) == i {
                                assert(self.slots@[field_index(g) as int] is Some);
                            }
                        }
                    }
                },
            }
            i = i + 1;
        }
        proof {
            assert forall|f: Field| #[trigger] self@.contains_key(f) implies exists|k: int|
                0 <= k < views(out@).len() && views(out@)[k].field == f by {
                lemma_field_index(f);
                let k = choose|k: int| 0 <= k < out@.len() && out@[k]@.field == f;
                assert(views(out@)[k].field == f);
            }
        }
        out
    }

    /// Each entry with the name of its field, in declaration order.
    pub fn items(&self) -> (r: Vec<(String, UpstreamDatum)>)
        requires
            self.wf(),
        ensures
            lists_in_order(pair_views(r@), self@),
            forall|k: int| 0 <= k < r@.len() ==> (#[trigger] r@[k]).0@ == field_name(r@[k].1@.field),
    {
        let vals = self.values();
        let mut out: Vec<(String, UpstreamDatum)> = Vec::new();
        let mut i: usize = 0;
        let ghost src = vals@;
        while i < vals.len()
            invariant
                vals@ == src,
                i <= src.len(),
                out@.len() == i,
                forall|k: int| 0 <= k < i ==> (#[trigger] out@[k]).1@ == src[k]@,
                forall|k: int| 0 <= k < i ==> (#[trigger] out@[k]).0@ == field_name(out@[k].1@.field),
            decreases src.len() - i,
        {
            let d = vals[i].copy();
            let name = String::from_str(d.field());
            out.push((name, d));
            i = i + 1;
        }
        proof {
            assert(pair_views(out@) =~= views(src));
        }
        out
    }
}

} // verus!

//! An insertion-ordered set of pending labels, kept in an `IndexSet`.
use vstd::prelude::*;
use crate::label::{PendingLabel, code_of, label_of, lemma_code_injective, lemma_code_round_trip, LABEL_COUNT};

verus! {

#[verifier::external_type_specification]
#[verifier::external_body]
#[verifier::reject_recursive_types(T)]
#[verifier::reject_recursive_types(S)]
pub struct ExIndexSet<T, S>(indexmap::IndexSet<T, S>);

/// The items of an `IndexSet` of codes, in insertion order.
pub uninterp spec fn codes_in(s: indexmap::IndexSet<u8>) -> Seq<u8>;

/// Relies on `IndexSet::new`: a new set holds nothing.
#[verifier::external_body]
fn new_code_set() -> (r: indexmap::IndexSet<u8>)
    ensures
        codes_in(r) == Seq::<u8>::empty(),
{
    indexmap::IndexSet::new()
}

/// Relies on `IndexSet::insert`: an item already present leaves the set and
/// its order unchanged and yields `false`; a new item goes last and yields `true`.
#[verifier::external_body]
fn insert_code(s: &mut indexmap::IndexSet<u8>, c: u8) -> (r: bool)
    ensures
        r == !codes_in(*old(s)).contains(c),
        codes_in(*final(s)) == if codes_in(*old(s)).contains(c) {
            codes_in(*old(s))
        } else {
            codes_in(*old(s)).push(c)
        },
{
    s.insert(c)
}

/// Relies on `IndexSet::len`: the number of items.
#[verifier::external_body]
fn code_count(s: &indexmap::IndexSet<u8>) -> (r: usize)
    ensures
        r == codes_in(*s).len(),
{
    s.len()
}

/// Relies on `IndexSet::get_index`: the item at a position in insertion order.
#[verifier::external_body]
fn code_at(s: &indexmap::IndexSet<u8>, i: usize) -> (r: Option<u8>)
    ensures
        i < codes_in(*s).len() ==> r == Some(codes_in(*s)[i as int]),
        i >= codes_in(*s).len() ==> r is None,
{
    s.get_index(i).copied()
}

/// The sequence obtained by adding `l` to `s` unless it is already there.
pub open spec fn with_label(s: Seq<PendingLabel>, l: PendingLabel) -> Seq<PendingLabel> {
    if s.contains(l) {
        s
    } else {
        s.push(l)
    }
}

/// Adding a label keeps a sequence free of duplicates, and makes it hold the label.
pub proof fn lemma_with_label(s: Seq<PendingLabel>, l: PendingLabel)
    ensures
        s.no_duplicates() ==> with_label(s, l).no_duplicates(),
        with_label(s, l).contains(l),
        with_label(s, l).len() > 0,
        forall|m: PendingLabel| #[trigger] with_label(s, l).contains(m) <==> (s.contains(m) || m == l),
{
    if !s.contains(l) {
        assert(s.push(l).last() == l);
        assert forall|m: PendingLabel| #[trigger] s.push(l).contains(m) <==> (s.contains(m) || m == l) by {
            if s.contains(m) {
                let i = choose|i: int| 0 <= i < s.len() && s[i] == m;
                assert(s.push(l)[i] == m);
            }
            if s.push(l).contains(m) && m != l {
                let i = choose|i: int| 0 <= i < s.push(l).len() && s.push(l)[i] == m;
                assert(s[i] == m);
            }
        }
    } else {
        let i = choose|i: int| 0 <= i < s.len() && s[i] == l;
        assert(s[i] == l);
    }
}

/// A set of pending labels that remembers the order in which labels came.
#[derive(Debug)]
pub struct PendingSet {
    codes: indexmap::IndexSet<u8>,
}

impl View for PendingSet {
    type V = Seq<PendingLabel>;

    closed spec fn view(&self) -> Seq<PendingLabel> {
        codes_in(self.codes).map_values(|c: u8| label_of(c))
    }
}

impl PendingSet {
    /// Every code stands for a label and none repeats.
    pub closed spec fn wf(&self) -> bool {
        &&& codes_in(self.codes).no_duplicates()
        &&& forall|i: int| 0 <= i < codes_in(self.codes).len() ==> #[trigger] codes_in(self.codes)[i] < LABEL_COUNT
    }

    /// An empty set.
    pub fn new() -> (r: PendingSet)
        ensures
            r.wf(),
            r@ == Seq::<PendingLabel>::empty(),
    {
        let r = PendingSet { codes: new_code_set() };
        assert(r@ =~= Seq::<PendingLabel>::empty());
        r
    }

    /// Adds a label unless it is already there.
    pub fn insert(&mut self, l: PendingLabel)
        requires
            old(self).wf(),
        ensures
            final(self).wf(),
            final(self)@ == with_label(old(self)@, l),
    {
        let ghost before = codes_in(self.codes);
        let c = l.code();
        proof {
            lemma_code_round_trip(l);
            assert forall|i: int| 0 <= i < before.len() implies (#[trigger] before[i] == c) == (label_of(before[i]) == l) by {
                lemma_code_round_trip(label_of(before[i]));
                lemma_code_injective(label_of(before[i]), l);
                assert(code_of(label_of(before[i])) == before[i]) by {
                    assert(before[i] < LABEL_COUNT);
                }
            }
            assert(before.contains(c) == self@.contains(l)) by {
                if before.contains(c) {
                    let i = choose|i: int| 0 <= i < before.len() && before[i] == c;
                    assert(self@[i] == l);
                }
                if self@.contains(l) {
                    let i = choose|i: int| 0 <= i < self@.len() && self@[i] == l;
                    assert(before[i] == c);
                }
            }
        }
        insert_code(&mut self.codes, c);
        proof {
            if !before.contains(c) {
                assert(self@ =~= old(self)@.push(l));
                assert(codes_in(self.codes).no_duplicates()) by {
                    let after = codes_in(self.codes);
                    assert forall|i: int, j: int| 0 <= i < after.len() && 0 <= j < after.len() && i != j implies after[i] != after[j] by {
                        if i < before.len() && j < before.len() {
                            assert(after[i] == before[i] && after[j] == before[j]);
                        } else if i < before.len() {
                            assert(after[i] == before[i]);
                        } else if j < before.len() {
                            assert(after[j] == before[j]);
                        }
                    }
                }
            }
        }
    }

    /// Whether no label is present.
    pub fn is_empty(&self) -> (r: bool)
        ensures
            r == (self@.len() == 0),
    {
        code_count(&self.codes) == 0
    }

    /// The number of labels present.
    pub fn len(&self) -> (r: usize)
        ensures
            r == self@.len(),
    {
        code_count(&self.codes)
    }

    /// Whether a label is present.
    pub fn contains(&self, l: PendingLabel) -> (r: bool)
        ensures
            r == self@.contains(l),
    {
        let labels = self.labels();
        let mut i: usize = 0;
        while i < labels.len()
            invariant
                labels@ == self@,
                i <= labels.len(),
                forall|j: int| 0 <= j < i ==> labels@[j] != l,
            decreases labels.len() - i,
        {
            if labels[i] == l {
                return true;
            }
            i = i + 1;
        }
        false
    }

    /// The labels in the order they were added.
    pub fn labels(&self) -> (r: Vec<PendingLabel>)
        ensures
            r@ == self@,
    {
        let n = code_count(&self.codes);
        let mut out: Vec<PendingLabel> = Vec::new();
        let mut i: usize = 0;
        while i < n
            invariant
                n == codes_in(self.codes).len(),
                i <= n,
                out@ == self@.take(i as int),
            decreases n - i,
        {
            let c = code_at(&self.codes, i);
            match c {
                Some(c) => {
                    out.push(PendingLabel::from_code(c));
                }
                None => {}
            }
            assert(out@ =~= self@.take(i + 1));
            i = i + 1;
        }
        assert(out@ =~= self@);
        out
    }

    /// The label texts in the order the labels were added.
    pub fn texts(&self) -> (r: Vec<&'static str>)
        ensures
            r@.len() == self@.len(),
            forall|i: int| 0 <= i < r@.len() ==> #[trigger] r@[i]@ == crate::label::label_text(self@[i]),
    {
        let labels = self.labels();
        let mut out: Vec<&'static str> = Vec::new();
        let mut i: usize = 0;
        while i < labels.len()
            invariant
                labels@ == self@,
                i <= labels.len(),
                out@.len() == i,
                forall|j: int| 0 <= j < i ==> #[trigger] out@[j]@ == crate::label::label_text(self@[j]),
            decreases labels.len() - i,
        {
            out.push(labels[i].as_str());
            i = i + 1;
        }
        out
    }
}

} // verus!

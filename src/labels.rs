//! Label sets: label name to label value, kept in ascending order of name.
use vstd::prelude::*;
use crate::text::{
    chars_lt, lemma_chars_lt_asymmetric, lemma_chars_lt_irreflexive, lemma_chars_lt_total,
    lemma_chars_lt_transitive, str_less,
};

verus! {

/// One label as a pair of name and value.
pub type LabelView = (Seq<char>, Seq<char>);

/// Names strictly ascending, hence also pairwise distinct.
pub open spec fn labels_sorted(s: Seq<LabelView>) -> bool {
    forall|i: int, j: int| 0 <= i < j < s.len() ==> chars_lt(#[trigger] s[i].0, #[trigger] s[j].0)
}

/// The label sequence after setting `name` to `value`: an existing label of
/// that name has its value replaced, otherwise the label is placed before the
/// first name that orders after it.
pub open spec fn label_insert(s: Seq<LabelView>, name: Seq<char>, value: Seq<char>) -> Seq<
    LabelView,
>
    decreases s.len(),
{
    if s.len() == 0 {
        seq![(name, value)]
    } else if s[0].0 == name {
        seq![(name, value)] + s.drop_first()
    } else if chars_lt(name, s[0].0) {
        seq![(name, value)] + s
    } else {
        seq![s[0]] + label_insert(s.drop_first(), name, value)
    }
}

/// Text of one label: `name="value"`.
pub open spec fn label_text(l: LabelView) -> Seq<char> {
    l.0 + seq!['=', '"'] + l.1 + seq!['"']
}

/// Labels rendered in order, joined by commas; empty for no labels.
pub open spec fn labels_text(s: Seq<LabelView>) -> Seq<char>
    decreases s.len(),
{
    if s.len() == 0 {
        Seq::empty()
    } else if s.len() == 1 {
        label_text(s[0])
    } else {
        labels_text(s.drop_last()) + seq![','] + label_text(s.last())
    }
}

proof fn lemma_insert_prefix(s: Seq<LabelView>, name: Seq<char>, value: Seq<char>, p: int)
    requires
        0 <= p <= s.len(),
        forall|j: int| 0 <= j < p ==> chars_lt(#[trigger] s[j].0, name),
    ensures
        label_insert(s, name, value) == s.take(p) + label_insert(s.skip(p), name, value),
    decreases p,
{
    if p == 0 {
        assert(s.take(0) + label_insert(s.skip(0), name, value) =~= label_insert(s, name, value))
            by {
            assert(s.skip(0) =~= s);
        }
    } else {
        assert(chars_lt(s[0].0, name));
        lemma_chars_lt_irreflexive(name);
        lemma_chars_lt_asymmetric(s[0].0, name);
        let t = s.drop_first();
        assert forall|j: int| 0 <= j < p - 1 implies chars_lt(#[trigger] t[j].0, name) by {
            assert(t[j] == s[j + 1]);
        }
        lemma_insert_prefix(t, name, value, p - 1);
        assert(t.skip(p - 1) =~= s.skip(p));
        assert(s.take(p) =~= seq![s[0]] + t.take(p - 1));
        assert(label_insert(s, name, value) =~= s.take(p) + label_insert(s.skip(p), name, value));
    }
}

proof fn lemma_insert_bound(s: Seq<LabelView>, name: Seq<char>, value: Seq<char>, x: Seq<char>)
    requires
        chars_lt(x, name),
        forall|j: int| 0 <= j < s.len() ==> chars_lt(x, #[trigger] s[j].0),
    ensures
        forall|i: int|
            0 <= i < label_insert(s, name, value).len() ==> chars_lt(
                x,
                #[trigger] label_insert(s, name, value)[i].0,
            ),
    decreases s.len(),
{
    if s.len() > 0 && s[0].0 != name && !chars_lt(name, s[0].0) {
        let t = s.drop_first();
        assert forall|j: int| 0 <= j < t.len() implies chars_lt(x, #[trigger] t[j].0) by {
            assert(t[j] == s[j + 1]);
        }
        lemma_insert_bound(t, name, value, x);
        let r = label_insert(s, name, value);
        assert forall|i: int| 0 <= i < r.len() implies chars_lt(x, #[trigger] r[i].0) by {
            if i > 0 {
                assert(r[i] == label_insert(t, name, value)[i - 1]);
            }
        }
    } else if s.len() > 0 {
        let r = label_insert(s, name, value);
        assert forall|i: int| 0 <= i < r.len() implies chars_lt(x, #[trigger] r[i].0) by {
            if i > 0 && s[0].0 == name {
                assert(r[i] == s[i]);
            } else if i > 0 {
                assert(r[i] == s[i - 1]);
            }
        }
    }
}

/// Setting a label keeps the names ascending.
pub proof fn lemma_insert_sorted(s: Seq<LabelView>, name: Seq<char>, value: Seq<char>)
    requires
        labels_sorted(s),
    ensures
        labels_sorted(label_insert(s, name, value)),
    decreases s.len(),
{
    let r = label_insert(s, name, value);
    if s.len() == 0 {
    } else if s[0].0 == name {
        assert forall|i: int, j: int| 0 <= i < j < r.len() implies chars_lt(
            #[trigger] r[i].0,
            #[trigger] r[j].0,
        ) by {
            assert(r[j] == s[j]);
            if i > 0 {
                assert(r[i] == s[i]);
            }
        }
    } else if chars_lt(name, s[0].0) {
        assert forall|i: int, j: int| 0 <= i < j < r.len() implies chars_lt(
            #[trigger] r[i].0,
            #[trigger] r[j].0,
        ) by {
            assert(r[j] == s[j - 1]);
            if i > 0 {
                assert(r[i] == s[i - 1]);
            } else if j > 1 {
                lemma_chars_lt_transitive(name, s[0].0, s[j - 1].0);
            }
        }
    } else {
        let t = s.drop_first();
        lemma_chars_lt_total(name, s[0].0);
        assert forall|j: int| 0 <= j < t.len() implies chars_lt(s[0].0, #[trigger] t[j].0) by {
            assert(t[j] == s[j + 1]);
        }
        assert(labels_sorted(t)) by {
            assert forall|i: int, j: int| 0 <= i < j < t.len() implies chars_lt(
                #[trigger] t[i].0,
                #[trigger] t[j].0,
            ) by {
                assert(t[i] == s[i + 1]);
                assert(t[j] == s[j + 1]);
            }
        }
        lemma_insert_sorted(t, name, value);
        lemma_insert_bound(t, name, value, s[0].0);
        let rt = label_insert(t, name, value);
        assert forall|i: int, j: int| 0 <= i < j < r.len() implies chars_lt(
            #[trigger] r[i].0,
            #[trigger] r[j].0,
        ) by {
            assert(r[j] == rt[j - 1]);
            if i > 0 {
                assert(r[i] == rt[i - 1]);
            }
        }
    }
}

/// A set of labels, each name at most once, kept in ascending order of name:
/// it starts empty and changes only by `insert`, which keeps the order
/// (`lemma_insert_sorted`).
pub struct LabelSet {
    entries: Vec<(String, String)>,
}

impl View for LabelSet {
    type V = Seq<LabelView>;

    closed spec fn view(&self) -> Seq<LabelView> {
        self.entries@.map_values(|e: (String, String)| (e.0@, e.1@))
    }
}

impl LabelSet {
    /// The empty label set.
    pub fn new() -> (r: LabelSet)
        ensures
            r@ == Seq::<LabelView>::empty(),
    {
        let r = LabelSet { entries: Vec::new() };
        assert(r@ =~= Seq::<LabelView>::empty());
        r
    }

    pub fn len(&self) -> (r: usize)
        ensures
            r == self@.len(),
    {
        self.entries.len()
    }

    pub fn is_empty(&self) -> (r: bool)
        ensures
            r == (self@.len() == 0),
    {
        self.entries.len() == 0
    }

    /// The name and value of the label at position `i` in name order.
    pub fn get(&self, i: usize) -> (r: (&str, &str))
        requires
            i < self@.len(),
        ensures
            r.0@ == self@[i as int].0,
            r.1@ == self@[i as int].1,
    {
        let e = &self.entries[i];
        (e.0.as_str(), e.1.as_str())
    }

    /// Sets label `name` to `value`, replacing the value of a label of that name.
    pub fn insert(&mut self, name: String, value: String)
        ensures
            final(self)@ == label_insert(old(self)@, name@, value@),
    {
        let ghost s = self@;
        let n = self.entries.len();
        let mut p: usize = 0;
        while p < n && str_less(self.entries[p].0.as_str(), name.as_str())
            invariant
                n == self.entries.len(),
                s == self@,
                p <= n,
                forall|j: int| 0 <= j < p ==> chars_lt(#[trigger] s[j].0, name@),
            decreases n - p,
        {
            assert(s[p as int].0 == self.entries@[p as int].0@);
            p = p + 1;
        }
        proof {
            lemma_insert_prefix(s, name@, value@, p as int);
        }
        let ghost k = name@;
        let ghost v = value@;
        if p < n && self.entries[p].0 == name {
            assert(s.skip(p as int)[0].0 == k);
            self.entries.remove(p);
            self.entries.insert(p, (name, value));
            assert(self@ =~= s.take(p as int) + (seq![(k, v)] + s.skip(p as int).drop_first()));
        } else {
            if p < n {
                assert(s.skip(p as int)[0] == s[p as int]);
                assert(!chars_lt(s[p as int].0, k));
                proof {
                    lemma_chars_lt_total(s[p as int].0, k);
                }
            }
            self.entries.insert(p, (name, value));
            assert(self@ =~= s.take(p as int) + (seq![(k, v)] + s.skip(p as int)));
        }
    }

    /// A copy of this label set with label `name` set to `value`.
    pub fn with_label(&self, name: String, value: String) -> (r: LabelSet)
        ensures
            r@ == label_insert(self@, name@, value@),
    {
        let mut r = self.copy();
        r.insert(name, value);
        r
    }

    /// A copy of this label set.
    pub fn copy(&self) -> (r: LabelSet)
        ensures
            r@ == self@,
    {
        let n = self.entries.len();
        let mut entries: Vec<(String, String)> = Vec::new();
        let mut i: usize = 0;
        while i < n
            invariant
                n == self.entries.len(),
                i <= n,
                entries@.len() == i,
                forall|j: int|
                    0 <= j < i ==> (#[trigger] entries@[j]).0@ == self.entries@[j].0@
                        && entries@[j].1@ == self.entries@[j].1@,
            decreases n - i,
        {
            let e = &self.entries[i];
            entries.push((e.0.clone(), e.1.clone()));
            i = i + 1;
        }
        let r = LabelSet { entries };
        assert(r@ =~= self@);
        r
    }
}

/// Renders labels as comma-joined `name="value"` in ascending name order.
/// Values are copied as they are, without escaping.
pub fn format_labels(labels: &LabelSet) -> (r: String)
    ensures
        r@ == labels_text(labels@),
{
    let n = labels.len();
    let mut out = String::new();
    let mut i: usize = 0;
    assert(labels@.take(0) =~= Seq::<LabelView>::empty());
    while i < n
        invariant
            n == labels@.len(),
            i <= n,
            out@ == labels_text(labels@.take(i as int)),
        decreases n - i,
    {
        let (k, v) = labels.get(i);
        let ghost before = out@;
        if i > 0 {
            out.append(",");
        }
        out.append(k);
        out.append("=\"");
        out.append(v);
        out.append("\"");
        proof {
            reveal_strlit(",");
            reveal_strlit("=\"");
            reveal_strlit("\"");
            let t = labels@.take(i as int + 1);
            assert(t.drop_last() =~= labels@.take(i as int));
            assert(t.last() == labels@[i as int]);
            if i == 0 {
                assert(out@ =~= label_text(t[0]));
            } else {
                assert(out@ =~= before + seq![','] + label_text(t.last()));
            }
        }
        i = i + 1;
    }
    assert(labels@.take(n as int) =~= labels@);
    out
}

} // verus!

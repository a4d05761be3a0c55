//! Attribute set: an ordered mapping from attribute key to a typed value.
//!
//! Insertion order is preserved for deterministic span export; keys are
//! unique; a later write of an existing key overwrites in place.
use vstd::prelude::*;

use crate::text::str_eq;

verus! {

/// A typed attribute value: a string, a non-negative integer, or a boolean.
#[derive(Debug, PartialEq, Eq)]
pub enum AttrValue {
    Str(String),
    Int(u64),
    Bool(bool),
}

/// The mathematical value of an [`AttrValue`].
pub enum AttrV {
    Str(Seq<char>),
    Int(u64),
    Bool(bool),
}

impl View for AttrValue {
    type V = AttrV;

    open spec fn view(&self) -> AttrV {
        match self {
            AttrValue::Str(s) => AttrV::Str(s@),
            AttrValue::Int(i) => AttrV::Int(*i),
            AttrValue::Bool(b) => AttrV::Bool(*b),
        }
    }
}

/// One attribute: a key and its value.
pub struct Attr {
    pub key: String,
    pub value: AttrValue,
}

/// An ordered set of attributes with unique keys.
pub struct AttributeSet {
    pub entries: Vec<Attr>,
}

impl View for AttributeSet {
    type V = Seq<(Seq<char>, AttrV)>;

    open spec fn view(&self) -> Seq<(Seq<char>, AttrV)> {
        self.entries@.map_values(|a: Attr| (a.key@, a.value@))
    }
}

/// Whether some entry of `s` has key `k`.
pub open spec fn attrs_contains(s: Seq<(Seq<char>, AttrV)>, k: Seq<char>) -> bool {
    exists|i: int| 0 <= i < s.len() && s[i].0 == k
}

/// The index of the first entry of `s` with key `k` (`s.len()` if absent).
pub open spec fn attrs_idx(s: Seq<(Seq<char>, AttrV)>, k: Seq<char>) -> int
    decreases s.len(),
{
    if s.len() == 0 {
        0
    } else if s[0].0 == k {
        0
    } else {
        1 + attrs_idx(s.drop_first(), k)
    }
}

/// The value of the first entry of `s` with key `k`.
pub open spec fn attrs_value(s: Seq<(Seq<char>, AttrV)>, k: Seq<char>) -> AttrV {
    s[attrs_idx(s, k)].1
}

/// `s` with `k` bound to `v`: overwrites the first entry with key `k` in
/// place, or appends a new entry.
pub open spec fn attrs_set(s: Seq<(Seq<char>, AttrV)>, k: Seq<char>, v: AttrV) -> Seq<
    (Seq<char>, AttrV),
> {
    if attrs_contains(s, k) {
        s.update(attrs_idx(s, k), (k, v))
    } else {
        s.push((k, v))
    }
}

/// Keys are unique.
pub open spec fn attrs_wf(s: Seq<(Seq<char>, AttrV)>) -> bool {
    forall|i: int, j: int| 0 <= i < j < s.len() ==> s[i].0 != s[j].0
}

pub proof fn lemma_attrs_idx(s: Seq<(Seq<char>, AttrV)>, k: Seq<char>)
    ensures
        0 <= attrs_idx(s, k) <= s.len(),
        attrs_idx(s, k) < s.len() ==> s[attrs_idx(s, k)].0 == k,
        forall|j: int| 0 <= j < attrs_idx(s, k) ==> s[j].0 != k,
        attrs_contains(s, k) <==> attrs_idx(s, k) < s.len(),
    decreases s.len(),
{
    if s.len() == 0 {
    } else if s[0].0 == k {
    } else {
        lemma_attrs_idx(s.drop_first(), k);
        assert forall|j: int| 0 <= j < attrs_idx(s, k) implies s[j].0 != k by {
            if j > 0 {
                assert(s.drop_first()[j - 1] == s[j]);
            }
        }
        if attrs_contains(s, k) {
            let w = choose|i: int| 0 <= i < s.len() && s[i].0 == k;
            assert(s.drop_first()[w - 1] == s[w]);
            assert(attrs_contains(s.drop_first(), k));
        }
        if attrs_contains(s.drop_first(), k) {
            let w = choose|i: int| 0 <= i < s.drop_first().len() && s.drop_first()[i].0 == k;
            assert(s[w + 1] == s.drop_first()[w]);
        }
    }
}

/// Setting a key keeps the keys unique.
pub proof fn lemma_attrs_set_wf(s: Seq<(Seq<char>, AttrV)>, k: Seq<char>, v: AttrV)
    requires
        attrs_wf(s),
    ensures
        attrs_wf(attrs_set(s, k, v)),
        attrs_contains(attrs_set(s, k, v), k),
        attrs_value(attrs_set(s, k, v), k) == v,
{
    lemma_attrs_idx(s, k);
    let t = attrs_set(s, k, v);
    if attrs_contains(s, k) {
        let i = attrs_idx(s, k);
        assert forall|a: int, b: int| 0 <= a < b < t.len() implies t[a].0 != t[b].0 by {
            if a != i && b != i {
                assert(t[a] == s[a] && t[b] == s[b]);
            } else if a == i {
                assert(t[b] == s[b] && s[b].0 != k);
            } else {
                assert(t[a] == s[a]);
                if s[a].0 == k {
                    assert(a >= i);
                }
            }
        }
        lemma_attrs_idx(t, k);
        assert forall|j: int| 0 <= j < i implies t[j].0 != k by {
            assert(t[j] == s[j]);
        }
        assert(attrs_idx(t, k) == i) by {
            lemma_attrs_first_idx(t, k, i);
        }
    } else {
        assert forall|a: int, b: int| 0 <= a < b < t.len() implies t[a].0 != t[b].0 by {
            if b < s.len() {
                assert(t[a] == s[a] && t[b] == s[b]);
            } else {
                assert(t[a] == s[a]);
            }
        }
        lemma_attrs_first_idx(t, k, s.len() as int);
    }
}

/// Setting one key neither adds, removes, nor changes any other key.
pub proof fn lemma_attrs_set_frame(s: Seq<(Seq<char>, AttrV)>, k: Seq<char>, v: AttrV, k2: Seq<char>)
    requires
        attrs_wf(s),
        k2 != k,
    ensures
        attrs_contains(attrs_set(s, k, v), k2) == attrs_contains(s, k2),
        attrs_contains(s, k2) ==> attrs_value(attrs_set(s, k, v), k2) == attrs_value(s, k2),
{
    lemma_attrs_idx(s, k);
    lemma_attrs_idx(s, k2);
    let t = attrs_set(s, k, v);
    if attrs_contains(s, k) {
        let i = attrs_idx(s, k);
        if attrs_contains(s, k2) {
            let j = attrs_idx(s, k2);
            assert(j != i);
            assert(t[j] == s[j]);
            assert(attrs_contains(t, k2));
            assert forall|x: int| 0 <= x < j implies t[x].0 != k2 by {
                if x == i {
                    assert(t[x].0 == k);
                } else {
                    assert(t[x] == s[x]);
                }
            }
            lemma_attrs_first_idx(t, k2, j);
        } else {
            if attrs_contains(t, k2) {
                let w = choose|x: int| 0 <= x < t.len() && t[x].0 == k2;
                assert(w != i);
                assert(s[w] == t[w]);
                assert(false);
            }
        }
    } else {
        if attrs_contains(s, k2) {
            let j = attrs_idx(s, k2);
            assert(t[j] == s[j]);
            assert(attrs_contains(t, k2));
            assert forall|x: int| 0 <= x < j implies t[x].0 != k2 by {
                assert(t[x] == s[x]);
            }
            lemma_attrs_first_idx(t, k2, j);
        } else {
            if attrs_contains(t, k2) {
                let w = choose|x: int| 0 <= x < t.len() && t[x].0 == k2;
                assert(w == s.len());
                assert(t[w].0 == k);
                assert(false);
            }
        }
    }
}

/// If the first `i` keys differ from `k` and entry `i` has key `k`, then `i`
/// is the first index of `k`.
pub proof fn lemma_attrs_first_idx(s: Seq<(Seq<char>, AttrV)>, k: Seq<char>, i: int)
    requires
        0 <= i <= s.len(),
        forall|j: int| 0 <= j < i ==> s[j].0 != k,
        i < s.len() ==> s[i].0 == k,
        i == s.len() ==> !attrs_contains(s, k),
    ensures
        attrs_idx(s, k) == i,
    decreases s.len(),
{
    if s.len() == 0 {
    } else if i == 0 {
        if s.len() > 0 && i == s.len() {
        }
    } else {
        assert(s[0].0 != k);
        let d = s.drop_first();
        assert forall|j: int| 0 <= j < i - 1 implies d[j].0 != k by {
            assert(d[j] == s[j + 1]);
        }
        if i - 1 < d.len() {
            assert(d[i - 1] == s[i]);
        } else {
            if attrs_contains(d, k) {
                let w = choose|x: int| 0 <= x < d.len() && d[x].0 == k;
                assert(s[w + 1] == d[w]);
            }
        }
        lemma_attrs_first_idx(d, k, i - 1);
    }
}

impl AttributeSet {
    /// Keys are unique.
    pub open spec fn wf(&self) -> bool {
        attrs_wf(self@)
    }

    /// An empty attribute set.
    pub fn new() -> (r: AttributeSet)
        ensures
            r@ == Seq::<(Seq<char>, AttrV)>::empty(),
            r.wf(),
    {
        let r = AttributeSet { entries: Vec::new() };
        proof {
            assert(r@ =~= Seq::<(Seq<char>, AttrV)>::empty());
        }
        r
    }

    /// Binds `key` to `value`, overwriting in place if the key is present.
    pub fn set(&mut self, key: String, value: AttrValue)
        requires
            old(self).wf(),
        ensures
            final(self).wf(),
            final(self)@ == attrs_set(old(self)@, key@, value@),
    {
        proof {
            lemma_attrs_set_wf(old(self)@, key@, value@);
        }
        let n = self.entries.len();
        let mut i: usize = 0;
        while i < n
            invariant
                *self == *old(self),
                old(self).wf(),
                n == self.entries@.len(),
                0 <= i <= n,
                forall|j: int| 0 <= j < i ==> self@[j].0 != key@,
            decreases n - i,
        {
            if str_eq(self.entries[i].key.as_str(), key.as_str()) {
                proof {
                    lemma_attrs_set_wf(old(self)@, key@, value@);
                    assert(old(self)@[i as int].0 == key@);
                    assert(attrs_contains(old(self)@, key@));
                    lemma_attrs_first_idx(old(self)@, key@, i as int);
                    assert(attrs_set(old(self)@, key@, value@) == old(self)@.update(
                        i as int,
                        (key@, value@),
                    ));
                }
                self.entries[i] = Attr { key, value };
                proof {
                    assert(self.entries@[i as int].key@ == key@);
                    assert(self.entries@[i as int].value@ == value@);
                    assert(self@ =~= old(self)@.update(i as int, (key@, value@)));
                    assert(self@ == attrs_set(old(self)@, key@, value@));
                    assert(attrs_wf(self@));
                }
                return;
            }
            i = i + 1;
        }
        proof {
            lemma_attrs_set_wf(old(self)@, key@, value@);
            if attrs_contains(old(self)@, key@) {
                let w = choose|x: int|
                    0 <= x < old(self)@.len() && old(self)@[x].0 == key@;
                assert(false);
            }
        }
        let ghost oldv = self@;
        self.entries.push(Attr { key, value });
        proof {
            assert(final(self)@ =~= oldv.push((final(self).entries@.last().key@,
            final(self).entries@.last().value@)));
        }
    }

    /// The value bound to `key`, if any.
    pub fn get(&self, key: &str) -> (r: Option<&AttrValue>)
        ensures
            match r {
                Some(v) => attrs_contains(self@, key@) && attrs_value(self@, key@) == v@,
                None => !attrs_contains(self@, key@),
            },
    {
        let n = self.entries.len();
        let mut i: usize = 0;
        while i < n
            invariant
                n == self.entries@.len(),
                0 <= i <= n,
                forall|j: int| 0 <= j < i ==> self@[j].0 != key@,
            decreases n - i,
        {
            let a = &self.entries[i];
            proof {
                assert(self@[i as int] == (a.key@, a.value@));
            }
            if str_eq(a.key.as_str(), key) {
                proof {
                    lemma_attrs_first_idx(self@, key@, i as int);
                }
                return Some(&a.value);
            }
            i = i + 1;
        }
        proof {
            if attrs_contains(self@, key@) {
                let w = choose|x: int| 0 <= x < self@.len() && self@[x].0 == key@;
                assert(false);
            }
        }
        None
    }

    /// How many attributes are recorded.
    pub fn len(&self) -> (r: usize)
        ensures
            r == self@.len(),
    {
        self.entries.len()
    }
}

} // verus!

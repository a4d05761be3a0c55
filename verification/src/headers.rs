//! Header carrier: a read/write adapter over a request's or response's
//! metadata, with case-insensitive key lookup as HTTP header semantics ask.
use vstd::prelude::*;

use crate::text::{eq_ignore_case, str_eq_ci};

verus! {

/// One header entry: a name and its value.
pub struct Header {
    pub name: String,
    pub value: String,
}

/// A carrier of header key/value pairs, in insertion order.
///
/// Lookup is case-insensitive in the ASCII range; the first entry whose name
/// matches wins.
pub struct HeaderExtractor {
    pub entries: Vec<Header>,
}

impl View for HeaderExtractor {
    type V = Seq<(Seq<char>, Seq<char>)>;

    open spec fn view(&self) -> Seq<(Seq<char>, Seq<char>)> {
        self.entries@.map_values(|h: Header| (h.name@, h.value@))
    }
}

/// The value of the first entry whose name equals `key` up to ASCII case,
/// or `None` if no entry matches.
pub open spec fn spec_header_get(hs: Seq<(Seq<char>, Seq<char>)>, key: Seq<char>) -> Option<
    Seq<char>,
>
    decreases hs.len(),
{
    if hs.len() == 0 {
        None
    } else if eq_ignore_case(hs[0].0, key) {
        Some(hs[0].1)
    } else {
        spec_header_get(hs.drop_first(), key)
    }
}

/// `hs` with `key` bound to `value`: the first entry whose name matches `key`
/// up to ASCII case is replaced, or a new entry is appended.
pub open spec fn spec_headers_set(
    hs: Seq<(Seq<char>, Seq<char>)>,
    key: Seq<char>,
    value: Seq<char>,
) -> Seq<(Seq<char>, Seq<char>)>
    decreases hs.len(),
{
    if hs.len() == 0 {
        seq![(key, value)]
    } else if eq_ignore_case(hs[0].0, key) {
        seq![(key, value)] + hs.drop_first()
    } else {
        seq![hs[0]] + spec_headers_set(hs.drop_first(), key, value)
    }
}

/// Whether some entry of `r` equals `name` up to ASCII case.
pub open spec fn has_name_ci(r: Seq<String>, name: Seq<char>) -> bool {
    exists|j: int| 0 <= j < r.len() && #[trigger] eq_ignore_case(r[j]@, name)
}

/// Whether `name` is the name of some entry of `hs`.
pub open spec fn is_stored_name(hs: Seq<(Seq<char>, Seq<char>)>, name: Seq<char>) -> bool {
    exists|i: int| 0 <= i < hs.len() && (#[trigger] hs[i]).0 == name
}

/// Whether some entry of `v` equals `name` up to ASCII case.
fn contains_ci(v: &Vec<String>, name: &str) -> (r: bool)
    ensures
        r == has_name_ci(v@, name@),
{
    let n = v.len();
    let mut i: usize = 0;
    while i < n
        invariant
            0 <= i <= n,
            n == v@.len(),
            forall|j: int| 0 <= j < i ==> !eq_ignore_case(v@[j]@, name@),
        decreases n - i,
    {
        if str_eq_ci(v[i].as_str(), name) {
            return true;
        }
        i = i + 1;
    }
    false
}

impl HeaderExtractor {
    /// An empty carrier.
    pub fn new() -> (r: HeaderExtractor)
        ensures
            r@ == Seq::<(Seq<char>, Seq<char>)>::empty(),
    {
        let r = HeaderExtractor { entries: Vec::new() };
        proof {
            assert(r@ =~= Seq::<(Seq<char>, Seq<char>)>::empty());
        }
        r
    }

    /// Appends an entry without looking for an existing one.
    pub fn push(&mut self, name: String, value: String)
        ensures
            final(self)@ == old(self)@.push((name@, value@)),
    {
        let ghost oldv = self@;
        self.entries.push(Header { name, value });
        proof {
            assert(final(self)@ =~= oldv.push((final(self).entries@.last().name@,
            final(self).entries@.last().value@)));
        }
    }

    /// The value bound to `key`, compared case-insensitively; the first
    /// matching entry wins.
    pub fn get(&self, key: &str) -> (r: Option<&String>)
        ensures
            match r {
                Some(v) => spec_header_get(self@, key@) == Some(v@),
                None => spec_header_get(self@, key@) is None,
            },
    {
        let n = self.entries.len();
        let mut i: usize = 0;
        proof {
            assert(self@.skip(0) =~= self@);
        }
        while i < n
            invariant
                n == self.entries@.len(),
                0 <= i <= n,
                self@.len() == n,
                spec_header_get(self@, key@) == spec_header_get(self@.skip(i as int), key@),
            decreases n - i,
        {
            let h = &self.entries[i];
            proof {
                assert(self@.skip(i as int)[0] == self@[i as int]);
                assert(self@[i as int] == (h.name@, h.value@));
            }
            if str_eq_ci(h.name.as_str(), key) {
                return Some(&h.value);
            }
            proof {
                assert(self@.skip(i as int).drop_first() =~= self@.skip(i as int + 1));
            }
            i = i + 1;
        }
        proof {
            assert(self@.skip(n as int).len() == 0);
        }
        None
    }

    /// The set of header names: each distinct name exactly once — a name
    /// with several values comes out a single time — compared up to ASCII
    /// case as lookup does, in first-occurrence order and case.
    pub fn keys(&self) -> (r: Vec<String>)
        ensures
            forall|a: int, b: int| 0 <= a < b < r@.len() ==> !eq_ignore_case(r@[a]@, r@[b]@),
            forall|i: int| 0 <= i < self@.len() ==> has_name_ci(r@, #[trigger] self@[i].0),
            forall|j: int| 0 <= j < r@.len() ==> is_stored_name(self@, (#[trigger] r@[j])@),
    {
        let n = self.entries.len();
        let mut r: Vec<String> = Vec::new();
        let mut i: usize = 0;
        while i < n
            invariant
                0 <= i <= n,
                n == self.entries@.len(),
                self@.len() == n,
                forall|a: int, b: int| 0 <= a < b < r@.len() ==> !eq_ignore_case(r@[a]@, r@[b]@),
                forall|k: int| 0 <= k < i ==> has_name_ci(r@, #[trigger] self@[k].0),
                forall|j: int| 0 <= j < r@.len() ==> is_stored_name(self@, (#[trigger] r@[j])@),
            decreases n - i,
        {
            let name = &self.entries[i].name;
            proof {
                assert(self@[i as int].0 == name@);
            }
            if !contains_ci(&r, name.as_str()) {
                let ghost oldr = r@;
                r.push(name.clone());
                proof {
                    assert(r@ =~= oldr.push(r@.last()));
                    assert(r@.last()@ == name@);
                    assert forall|a: int, b: int| 0 <= a < b < r@.len() implies !eq_ignore_case(
                        r@[a]@,
                        r@[b]@,
                    ) by {
                        if b < oldr.len() as int {
                            assert(r@[a] == oldr[a] && r@[b] == oldr[b]);
                        } else {
                            assert(r@[a] == oldr[a]);
                            assert(!eq_ignore_case(oldr[a]@, name@));
                        }
                    }
                    assert forall|k: int| 0 <= k < i + 1 implies has_name_ci(
                        r@,
                        #[trigger] self@[k].0,
                    ) by {
                        if k < i {
                            let j = choose|j: int|
                                0 <= j < oldr.len() && #[trigger] eq_ignore_case(
                                    oldr[j]@,
                                    self@[k].0,
                                );
                            assert(r@[j] == oldr[j]);
                            assert(eq_ignore_case(r@[j]@, self@[k].0));
                        } else {
                            assert(eq_ignore_case(r@[r@.len() - 1]@, self@[k].0));
                        }
                    }
                    assert forall|j: int| 0 <= j < r@.len() implies is_stored_name(
                        self@,
                        (#[trigger] r@[j])@,
                    ) by {
                        if j < oldr.len() as int {
                            assert(r@[j] == oldr[j]);
                        } else {
                            assert((self@[i as int]).0 == r@[j]@);
                        }
                    }
                }
            } else {
                proof {
                    assert(has_name_ci(r@, self@[i as int].0));
                }
            }
            i = i + 1;
        }
        r
    }

    /// Binds `key` to `value` for an outgoing carrier: overwrites the first
    /// entry whose name matches up to ASCII case, or appends a new entry.
    pub fn set(&mut self, key: String, value: String)
        ensures
            final(self)@ == spec_headers_set(old(self)@, key@, value@),
    {
        let n = self.entries.len();
        let mut i: usize = 0;
        proof {
            assert(old(self)@.skip(0) =~= old(self)@);
        }
        while i < n
            invariant
                *self == *old(self),
                n == self.entries@.len(),
                0 <= i <= n,
                spec_headers_set(old(self)@, key@, value@) == old(self)@.take(i as int)
                    + spec_headers_set(old(self)@.skip(i as int), key@, value@),
            decreases n - i,
        {
            proof {
                assert(self@.skip(i as int)[0] == self@[i as int]);
            }
            if str_eq_ci(self.entries[i].name.as_str(), key.as_str()) {
                self.entries[i] = Header { name: key, value };
                proof {
                    assert(final(self)@ =~= old(self)@.take(i as int) + (seq![
                        (final(self).entries@[i as int].name@, final(self).entries@[i as int].value@)
                    ] + old(self)@.skip(i as int).drop_first()));
                }
                return;
            }
            proof {
                assert(old(self)@.skip(i as int).drop_first() =~= old(self)@.skip(i as int + 1));
                assert(old(self)@.take(i as int).push(old(self)@[i as int]) =~= old(self)@.take(
                    i as int + 1));
            }
            i = i + 1;
        }
        proof {
            assert(old(self)@.skip(n as int).len() == 0);
        }
        let ghost oldv = self@;
        self.entries.push(Header { name: key, value });
        proof {
            assert(final(self)@ =~= oldv.push((final(self).entries@.last().name@,
            final(self).entries@.last().value@)));
            assert(final(self)@ =~= old(self)@.take(n as int) + spec_headers_set(old(self)@.skip(
                n as int), key@, value@));
        }
    }
}

} // verus!

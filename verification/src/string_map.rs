//! An ordered map from string keys to values.
//!
//! Entries are kept sorted by key (lexicographic by Unicode scalar value, which
//! is the byte order of the UTF-8 encoding), every key occurs once, and
//! iteration yields the entries in key order, as `BTreeMap<String, V>` does.

use vstd::prelude::*;
use crate::text::{chars_of, str_eq};

verus! {

broadcast use vstd::string::group_string_axioms;

/// Strict lexicographic order on character sequences.
pub open spec fn lex_lt(a: Seq<char>, b: Seq<char>) -> bool
    decreases a.len(),
{
    if a.len() == 0 {
        b.len() > 0
    } else if b.len() == 0 {
        false
    } else if a[0] != b[0] {
        (a[0] as u32) < (b[0] as u32)
    } else {
        lex_lt(a.drop_first(), b.drop_first())
    }
}

/// `lex_lt` never relates a sequence to itself.
pub proof fn lemma_lex_irreflexive(a: Seq<char>)
    ensures
        !lex_lt(a, a),
    decreases a.len(),
{
    if a.len() > 0 {
        lemma_lex_irreflexive(a.drop_first());
    }
}

/// `lex_lt` is transitive.
pub proof fn lemma_lex_transitive(a: Seq<char>, b: Seq<char>, c: Seq<char>)
    requires
        lex_lt(a, b),
        lex_lt(b, c),
    ensures
        lex_lt(a, c),
    decreases a.len(),
{
    if a.len() > 0 && b.len() > 0 && c.len() > 0 && a[0] == b[0] && b[0] == c[0] {
        lemma_lex_transitive(a.drop_first(), b.drop_first(), c.drop_first());
    }
}

/// Any two distinct sequences are ordered one way or the other.
pub proof fn lemma_lex_total(a: Seq<char>, b: Seq<char>)
    ensures
        a == b || lex_lt(a, b) || lex_lt(b, a),
    decreases a.len(),
{
    if a.len() > 0 && b.len() > 0 && a[0] == b[0] {
        lemma_lex_total(a.drop_first(), b.drop_first());
        if a.drop_first() == b.drop_first() {
            assert(a =~= seq![a[0]] + a.drop_first());
            assert(b =~= seq![b[0]] + b.drop_first());
        }
    } else if a.len() == 0 && b.len() == 0 {
        assert(a =~= b);
    } else if a.len() > 0 && b.len() > 0 {
        if (a[0] as u32) == (b[0] as u32) {
            vstd::utf8::char_u32_cast(a[0], a[0] as u32);
            vstd::utf8::char_u32_cast(b[0], b[0] as u32);
        }
    }
}

/// `lex_lt` is asymmetric.
pub proof fn lemma_lex_asymmetric(a: Seq<char>, b: Seq<char>)
    requires
        lex_lt(a, b),
    ensures
        !lex_lt(b, a),
{
    if lex_lt(b, a) {
        lemma_lex_transitive(a, b, a);
        lemma_lex_irreflexive(a);
    }
}

/// The key of an entry, as characters.
pub open spec fn key_of<V>(e: (String, V)) -> Seq<char> {
    e.0@
}

/// Keys strictly increase along the sequence.
pub open spec fn sorted_keys<V>(s: Seq<(String, V)>) -> bool {
    forall|i: int, j: int| 0 <= i < j < s.len() ==> lex_lt(#[trigger] key_of(s[i]), #[trigger] key_of(s[j]))
}

/// Whether some entry of `s` has key `k`.
pub open spec fn has_key<V>(s: Seq<(String, V)>, k: Seq<char>) -> bool {
    exists|i: int| 0 <= i < s.len() && key_of(#[trigger] s[i]) == k
}

/// The map that a sequence of entries with distinct keys denotes.
pub open spec fn entries_map<V>(s: Seq<(String, V)>) -> Map<Seq<char>, V> {
    Map::new(
        |k: Seq<char>| has_key(s, k),
        |k: Seq<char>| s[choose|i: int| 0 <= i < s.len() && key_of(#[trigger] s[i]) == k].1,
    )
}

/// In a sorted sequence the entry with a given key is unique, and the map
/// sends that key to its value.
pub proof fn lemma_entries_map_at<V>(s: Seq<(String, V)>, i: int)
    requires
        sorted_keys(s),
        0 <= i < s.len(),
    ensures
        entries_map(s).dom().contains(key_of(s[i])),
        entries_map(s)[key_of(s[i])] == s[i].1,
{
    let k = key_of(s[i]);
    assert(has_key(s, k));
    let j = choose|j: int| 0 <= j < s.len() && key_of(#[trigger] s[j]) == k;
    if j < i {
        assert(lex_lt(key_of(s[j]), key_of(s[i])));
        lemma_lex_irreflexive(k);
    } else if i < j {
        assert(lex_lt(key_of(s[i]), key_of(s[j])));
        lemma_lex_irreflexive(k);
    }
}

/// The entries `s[..n]` followed by `e` denote the map of `s[..n]` with `e` added.
pub proof fn lemma_entries_map_push<V>(s: Seq<(String, V)>, e: (String, V))
    requires
        sorted_keys(s.push(e)),
    ensures
        entries_map(s.push(e)) == entries_map(s).insert(key_of(e), e.1),
{
    let t = s.push(e);
    assert forall|i: int, j: int| 0 <= i < j < s.len() implies lex_lt(
        #[trigger] key_of(s[i]),
        #[trigger] key_of(s[j]),
    ) by {
        assert(t[i] == s[i] && t[j] == s[j]);
    }
    assert forall|k: Seq<char>| #[trigger] entries_map(t).dom().contains(k) <==> entries_map(s).insert(
        key_of(e),
        e.1,
    ).dom().contains(k) by {
        if has_key(t, k) {
            let i = choose|i: int| 0 <= i < t.len() && key_of(#[trigger] t[i]) == k;
            if i < s.len() {
                assert(t[i] == s[i]);
                assert(has_key(s, k));
            }
        }
        if has_key(s, k) {
            let i = choose|i: int| 0 <= i < s.len() && key_of(#[trigger] s[i]) == k;
            assert(t[i] == s[i]);
            assert(has_key(t, k));
        }
        if k == key_of(e) {
            assert(t[s.len() as int] == e);
            assert(has_key(t, k));
        }
    }
    assert forall|k: Seq<char>| #[trigger] entries_map(t).dom().contains(k) implies entries_map(t)[k]
        == entries_map(s).insert(key_of(e), e.1)[k] by {
        let i = choose|i: int| 0 <= i < t.len() && key_of(#[trigger] t[i]) == k;
        lemma_entries_map_at(t, i);
        if i < s.len() {
            assert(t[i] == s[i]);
            lemma_entries_map_at(s, i);
            assert(lex_lt(key_of(t[i]), key_of(t[s.len() as int])));
            if k == key_of(e) {
                lemma_lex_irreflexive(k);
            }
        } else {
            assert(t[i] == e);
        }
    }
    assert(entries_map(t) =~= entries_map(s).insert(key_of(e), e.1));
}

/// The values of a string-valued map as character sequences.
pub open spec fn texts(m: Map<Seq<char>, String>) -> Map<Seq<char>, Seq<char>> {
    m.map_values(|s: String| s@)
}

/// Storing a string and then viewing the values as text is storing its text.
pub proof fn lemma_texts_insert(m: Map<Seq<char>, String>, k: Seq<char>, v: String)
    ensures
        texts(m.insert(k, v)) == texts(m).insert(k, v@),
{
    assert(texts(m.insert(k, v)) =~= texts(m).insert(k, v@));
}

/// Viewing values as text commutes with a right-biased union.
pub proof fn lemma_texts_union(a: Map<Seq<char>, String>, b: Map<Seq<char>, String>)
    ensures
        texts(a.union_prefer_right(b)) == texts(a).union_prefer_right(texts(b)),
{
    assert(texts(a.union_prefer_right(b)) =~= texts(a).union_prefer_right(texts(b)));
}

/// A finite map from string keys to values, ordered by key.
#[derive(Debug, PartialEq, Eq)]
pub struct StringMap<V> {
    entries: Vec<(String, V)>,
}

impl<V> View for StringMap<V> {
    type V = Map<Seq<char>, V>;

    closed spec fn view(&self) -> Map<Seq<char>, V> {
        entries_map(self.entries@)
    }
}

impl<V> StringMap<V> {
    #[verifier::type_invariant]
    spec fn well_ordered(self) -> bool {
        sorted_keys(self.entries@)
    }

    /// The entries in key order.
    pub closed spec fn entry_seq(self) -> Seq<(String, V)> {
        self.entries@
    }

    /// An empty map.
    pub fn new() -> (m: Self)
        ensures
            m@ == Map::<Seq<char>, V>::empty(),
            m.entry_seq().len() == 0,
    {
        let m = StringMap { entries: Vec::new() };
        assert(m@ =~= Map::<Seq<char>, V>::empty());
        m
    }

    /// Number of entries.
    pub fn len(&self) -> (n: usize)
        ensures
            n == self.entry_seq().len(),
            n == self@.dom().len(),
    {
        proof {
            use_type_invariant(self);
            lemma_dom_len(self.entries@);
        }
        self.entries.len()
    }

    /// Whether there are no entries.
    pub fn is_empty(&self) -> (b: bool)
        ensures
            b == (self@.dom().len() == 0),
    {
        self.len() == 0
    }

    /// The entries in key order.
    pub fn entries(&self) -> (r: &[(String, V)])
        ensures
            r@ == self.entry_seq(),
            sorted_keys(r@),
            self@ == entries_map(r@),
    {
        proof {
            use_type_invariant(self);
        }
        self.entries.as_slice()
    }

    /// Index of the entry with key `key`, if any.
    fn find(&self, key: &str) -> (r: Option<usize>)
        ensures
            match r {
                Some(i) => i < self.entries@.len() && key_of(self.entries@[i as int]) == key@,
                None => !has_key(self.entries@, key@),
            },
    {
        let mut i: usize = 0;
        while i < self.entries.len()
            invariant
                i <= self.entries@.len(),
                forall|j: int| 0 <= j < i ==> key_of(#[trigger] self.entries@[j]) != key@,
            decreases self.entries.len() - i,
        {
            if str_eq(self.entries[i].0.as_str(), key) {
                return Some(i);
            }
            i = i + 1;
        }
        None
    }

    /// The value stored under `key`.
    pub fn get(&self, key: &str) -> (r: Option<&V>)
        ensures
            r is Some <==> self@.dom().contains(key@),
            r is Some ==> *r.unwrap() == self@[key@],
    {
        proof {
            use_type_invariant(self);
        }
        match self.find(key) {
            Some(i) => {
                proof {
                    lemma_entries_map_at(self.entries@, i as int);
                }
                Some(&self.entries[i].1)
            },
            None => None,
        }
    }

    /// Whether `key` is present.
    pub fn contains_key(&self, key: &str) -> (b: bool)
        ensures
            b == self@.dom().contains(key@),
    {
        self.find(key).is_some()
    }

    /// Store `value` under `key`, replacing any previous value.
    pub fn insert(&mut self, key: String, value: V)
        ensures
            final(self)@ == old(self)@.insert(key@, value),
    {
        proof {
            use_type_invariant(&*self);
        }
        let mut entries: Vec<(String, V)> = Vec::new();
        std::mem::swap(&mut entries, &mut self.entries);
        let ghost old_entries = entries@;
        let kc = chars_of(key.as_str());
        // First position whose key is not below `key`.
        let mut i: usize = 0;
        while i < entries.len() && lex_less(&chars_of(entries[i].0.as_str()), &kc)
            invariant
                entries@ == old_entries,
                kc@ == key@,
                i <= entries@.len(),
                forall|j: int| 0 <= j < i ==> lex_lt(key_of(#[trigger] old_entries[j]), key@),
            decreases entries.len() - i,
        {
            i = i + 1;
        }
        if i < entries.len() && str_eq(entries[i].0.as_str(), key.as_str()) {
            let ghost k_old = old_entries[i as int];
            entries.set(i, (key, value));
            proof {
                let t = entries@;
                assert forall|a: int, b: int| 0 <= a < b < t.len() implies lex_lt(
                    #[trigger] key_of(t[a]),
                    #[trigger] key_of(t[b]),
                ) by {
                    assert(key_of(t[a]) == key_of(old_entries[a]));
                    assert(key_of(t[b]) == key_of(old_entries[b]));
                }
                lemma_replace_map(old_entries, i as int, (key, value));
            }
        } else {
            proof {
                if i < old_entries.len() {
                    lemma_lex_total(key_of(old_entries[i as int]), key@);
                }
            }
            entries.insert(i, (key, value));
            proof {
                let t = entries@;
                assert(t =~= old_entries.take(i as int).push((key, value)) + old_entries.skip(i as int));
                assert forall|a: int, b: int| 0 <= a < b < t.len() implies lex_lt(
                    #[trigger] key_of(t[a]),
                    #[trigger] key_of(t[b]),
                ) by {
                    if b < i {
                        assert(t[a] == old_entries[a] && t[b] == old_entries[b]);
                    } else if b == i {
                        assert(t[a] == old_entries[a]);
                    } else if a == i {
                        assert(t[b] == old_entries[b - 1]);
                        if b - 1 > i {
                            assert(lex_lt(key_of(old_entries[i as int]), key_of(old_entries[b - 1])));
                            lemma_lex_transitive(key@, key_of(old_entries[i as int]), key_of(old_entries[b - 1]));
                        }
                    } else if a < i {
                        assert(t[a] == old_entries[a] && t[b] == old_entries[b - 1]);
                        assert(lex_lt(key_of(old_entries[a]), key@));
                        assert(lex_lt(key@, key_of(old_entries[i as int])));
                        lemma_lex_transitive(key_of(old_entries[a]), key@, key_of(old_entries[i as int]));
                        if b - 1 > i {
                            lemma_lex_transitive(key_of(old_entries[a]), key_of(old_entries[i as int]), key_of(old_entries[b - 1]));
                        }
                    } else {
                        assert(t[a] == old_entries[a - 1] && t[b] == old_entries[b - 1]);
                    }
                }
                assert forall|j: int| 0 <= j < old_entries.len() implies key_of(#[trigger] old_entries[j]) != key@ by {
                    if j < i {
                        lemma_lex_irreflexive(key@);
                    } else {
                        assert(lex_lt(key@, key_of(old_entries[i as int])));
                        if j > i {
                            assert(lex_lt(key_of(old_entries[i as int]), key_of(old_entries[j])));
                            lemma_lex_transitive(key@, key_of(old_entries[i as int]), key_of(old_entries[j]));
                        }
                        lemma_lex_irreflexive(key@);
                    }
                }
                lemma_insert_map(old_entries, i as int, (key, value));
            }
        }
        self.entries = entries;
    }
}

impl StringMap<String> {
    /// Store every entry of `other`, in `other`'s key order; its values win.
    pub fn extend_from(&mut self, other: &StringMap<String>)
        ensures
            final(self)@ == old(self)@.union_prefer_right(other@),
    {
        proof {
            use_type_invariant(other);
        }
        let mut i: usize = 0;
        while i < other.entries.len()
            invariant
                i <= other.entries@.len(),
                sorted_keys(other.entries@),
                self@ == old(self)@.union_prefer_right(entries_map(other.entries@.take(i as int))),
            decreases other.entries.len() - i,
        {
            let k = other.entries[i].0.clone();
            let v = other.entries[i].1.clone();
            let ghost before = other.entries@.take(i as int);
            proof {
                let after = other.entries@.take(i + 1);
                assert(after =~= before.push(other.entries@[i as int]));
                assert forall|a: int, b: int| 0 <= a < b < after.len() implies lex_lt(
                    #[trigger] key_of(after[a]),
                    #[trigger] key_of(after[b]),
                ) by {
                    assert(after[a] == other.entries@[a] && after[b] == other.entries@[b]);
                }
                lemma_entries_map_push(before, other.entries@[i as int]);
            }
            self.insert(k, v);
            i = i + 1;
            assert(self@ =~= old(self)@.union_prefer_right(entries_map(other.entries@.take(i as int))));
        }
        assert(other.entries@.take(other.entries@.len() as int) =~= other.entries@);
    }
}

impl<V: Clone> Clone for StringMap<V> {
    /// A copy with the same keys, in the same order, and cloned values.
    fn clone(&self) -> (m: Self)
        ensures
            m@.dom() == self@.dom(),
            forall|k: Seq<char>| #[trigger] m@.dom().contains(k) ==> cloned::<V>(self@[k], m@[k]),
    {
        proof {
            use_type_invariant(self);
        }
        let mut entries: Vec<(String, V)> = Vec::new();
        let mut i: usize = 0;
        while i < self.entries.len()
            invariant
                i <= self.entries@.len(),
                sorted_keys(self.entries@),
                entries@.len() == i,
                forall|j: int| 0 <= j < i ==> key_of(#[trigger] entries@[j]) == key_of(self.entries@[j]),
                forall|j: int| 0 <= j < i ==> cloned::<V>(self.entries@[j].1, #[trigger] entries@[j].1),
            decreases self.entries.len() - i,
        {
            let k = self.entries[i].0.clone();
            let v = self.entries[i].1.clone();
            entries.push((k, v));
            i = i + 1;
        }
        proof {
            let t = entries@;
            let s = self.entries@;
            assert forall|a: int, b: int| 0 <= a < b < t.len() implies lex_lt(
                #[trigger] key_of(t[a]),
                #[trigger] key_of(t[b]),
            ) by {
                assert(key_of(t[a]) == key_of(s[a]) && key_of(t[b]) == key_of(s[b]));
            }
            assert forall|k: Seq<char>| has_key(t, k) <==> has_key(s, k) by {
                if has_key(t, k) {
                    let j = choose|j: int| 0 <= j < t.len() && key_of(#[trigger] t[j]) == k;
                    assert(key_of(s[j]) == k);
                }
                if has_key(s, k) {
                    let j = choose|j: int| 0 <= j < s.len() && key_of(#[trigger] s[j]) == k;
                    assert(key_of(t[j]) == k);
                }
            }
            assert(entries_map(t).dom() =~= entries_map(s).dom());
            assert forall|k: Seq<char>| #[trigger] entries_map(t).dom().contains(k) implies cloned::<V>(
                entries_map(s)[k],
                entries_map(t)[k],
            ) by {
                let j = choose|j: int| 0 <= j < t.len() && key_of(#[trigger] t[j]) == k;
                lemma_entries_map_at(t, j);
                lemma_entries_map_at(s, j);
                assert(key_of(s[j]) == k);
            }
        }
        StringMap { entries }
    }
}

impl<V> Default for StringMap<V> {
    fn default() -> (m: Self)
        ensures
            m@ == Map::<Seq<char>, V>::empty(),
    {
        StringMap::new()
    }
}

/// Strict lexicographic comparison of two character vectors.
pub fn lex_less(a: &Vec<char>, b: &Vec<char>) -> (r: bool)
    ensures
        r == lex_lt(a@, b@),
{
    let mut i: usize = 0;
    assert(a@.skip(0) =~= a@ && b@.skip(0) =~= b@);
    while i < a.len() && i < b.len() && a[i] == b[i]
        invariant
            i <= a.len(),
            i <= b.len(),
            lex_lt(a@.skip(i as int), b@.skip(i as int)) == lex_lt(a@, b@),
        decreases a.len() - i,
    {
        assert(a@.skip(i as int).drop_first() =~= a@.skip(i + 1));
        assert(b@.skip(i as int).drop_first() =~= b@.skip(i + 1));
        i = i + 1;
    }
    if i == a.len() {
        i < b.len()
    } else if i == b.len() {
        false
    } else {
        (a[i] as u32) < (b[i] as u32)
    }
}

proof fn lemma_dom_len<V>(s: Seq<(String, V)>)
    requires
        sorted_keys(s),
    ensures
        entries_map(s).dom().len() == s.len(),
        entries_map(s).dom().finite(),
    decreases s.len(),
{
    if s.len() == 0 {
        assert(entries_map(s).dom() =~= Set::<Seq<char>>::empty());
    } else {
        let p = s.drop_last();
        assert(s =~= p.push(s.last()));
        assert forall|a: int, b: int| 0 <= a < b < p.len() implies lex_lt(
            #[trigger] key_of(p[a]),
            #[trigger] key_of(p[b]),
        ) by {
            assert(p[a] == s[a] && p[b] == s[b]);
        }
        lemma_dom_len(p);
        lemma_entries_map_push(p, s.last());
        if has_key(p, key_of(s.last())) {
            let j = choose|j: int| 0 <= j < p.len() && key_of(#[trigger] p[j]) == key_of(s.last());
            assert(lex_lt(key_of(s[j]), key_of(s[s.len() - 1])));
            lemma_lex_irreflexive(key_of(s.last()));
        }
    }
}

proof fn lemma_replace_map<V>(s: Seq<(String, V)>, i: int, e: (String, V))
    requires
        sorted_keys(s),
        sorted_keys(s.update(i, e)),
        0 <= i < s.len(),
        key_of(s[i]) == key_of(e),
    ensures
        entries_map(s.update(i, e)) == entries_map(s).insert(key_of(e), e.1),
{
    let t = s.update(i, e);
    assert forall|k: Seq<char>| #[trigger] entries_map(t).dom().contains(k) <==> entries_map(s).dom().insert(
        key_of(e),
    ).contains(k) by {
        if has_key(t, k) {
            let j = choose|j: int| 0 <= j < t.len() && key_of(#[trigger] t[j]) == k;
            if j != i {
                assert(t[j] == s[j]);
            }
            assert(has_key(s, k));
        }
        if has_key(s, k) {
            let j = choose|j: int| 0 <= j < s.len() && key_of(#[trigger] s[j]) == k;
            if j != i {
                assert(t[j] == s[j]);
            } else {
                assert(t[j] == e);
            }
            assert(has_key(t, k));
        }
        if k == key_of(e) {
            assert(has_key(s, k));
        }
    }
    assert forall|k: Seq<char>| #[trigger] entries_map(t).dom().contains(k) implies entries_map(t)[k]
        == entries_map(s).insert(key_of(e), e.1)[k] by {
        let j = choose|j: int| 0 <= j < t.len() && key_of(#[trigger] t[j]) == k;
        lemma_entries_map_at(t, j);
        if j != i {
            assert(t[j] == s[j]);
            lemma_entries_map_at(s, j);
            if k == key_of(e) {
                if j < i {
                    assert(lex_lt(key_of(t[j]), key_of(t[i])));
                } else {
                    assert(lex_lt(key_of(t[i]), key_of(t[j])));
                }
                lemma_lex_irreflexive(k);
            }
        }
    }
    assert(entries_map(t) =~= entries_map(s).insert(key_of(e), e.1));
}

proof fn lemma_insert_map<V>(s: Seq<(String, V)>, i: int, e: (String, V))
    requires
        sorted_keys(s),
        0 <= i <= s.len(),
        sorted_keys(s.take(i).push(e) + s.skip(i)),
        !has_key(s, key_of(e)),
    ensures
        entries_map(s.take(i).push(e) + s.skip(i)) == entries_map(s).insert(key_of(e), e.1),
{
    let t = s.take(i).push(e) + s.skip(i);
    assert(t.len() == s.len() + 1);
    assert forall|j: int| 0 <= j < t.len() implies #[trigger] t[j] == (if j < i {
        s[j]
    } else if j == i {
        e
    } else {
        s[j - 1]
    }) by {}
    assert forall|k: Seq<char>| #[trigger] entries_map(t).dom().contains(k) <==> entries_map(s).dom().insert(
        key_of(e),
    ).contains(k) by {
        if has_key(t, k) {
            let j = choose|j: int| 0 <= j < t.len() && key_of(#[trigger] t[j]) == k;
            if j < i {
                assert(has_key(s, k));
            } else if j > i {
                assert(t[j] == s[j - 1]);
                assert(has_key(s, k));
            }
        }
        if has_key(s, k) {
            let j = choose|j: int| 0 <= j < s.len() && key_of(#[trigger] s[j]) == k;
            if j < i {
                assert(t[j] == s[j]);
            } else {
                assert(t[j + 1] == s[j]);
            }
            assert(has_key(t, k));
        }
        if k == key_of(e) {
            assert(t[i] == e);
            assert(has_key(t, k));
        }
    }
    assert forall|k: Seq<char>| #[trigger] entries_map(t).dom().contains(k) implies entries_map(t)[k]
        == entries_map(s).insert(key_of(e), e.1)[k] by {
        let j = choose|j: int| 0 <= j < t.len() && key_of(#[trigger] t[j]) == k;
        lemma_entries_map_at(t, j);
        if j < i {
            lemma_entries_map_at(s, j);
            assert(lex_lt(key_of(t[j]), key_of(t[i])));
            if k == key_of(e) {
                lemma_lex_irreflexive(k);
            }
        } else if j > i {
            assert(t[j] == s[j - 1]);
            lemma_entries_map_at(s, j - 1);
            assert(lex_lt(key_of(t[i]), key_of(t[j])));
            if k == key_of(e) {
                lemma_lex_irreflexive(k);
            }
        }
    }
    assert(entries_map(t) =~= entries_map(s).insert(key_of(e), e.1));
}

} // verus!

//! A table of entries keyed by text, held in ascending key order.
//!
//! Keys are ordered as Rust orders `String`s: lexicographically by
//! character (code point), which is the byte order of their UTF-8 forms.
//! Inserting a key that is already present replaces its entry.

use vstd::prelude::*;

verus! {

/// Whether `a` and `b` agree on their first `n` characters.
pub open spec fn same_prefix(a: Seq<char>, b: Seq<char>, n: int) -> bool {
    &&& 0 <= n <= a.len()
    &&& n <= b.len()
    &&& forall|j: int| 0 <= j < n ==> a[j] == b[j]
}

/// Whether `a` and `b` first differ at position `n`, with `a` the smaller.
pub open spec fn before_at(a: Seq<char>, b: Seq<char>, n: int) -> bool {
    &&& same_prefix(a, b, n)
    &&& ((n == a.len() && n < b.len()) || (n < a.len() && n < b.len() && (a[n] as int) < (b[n] as int)))
}

/// Whether the text `a` comes strictly before the text `b`.
pub open spec fn text_before(a: Seq<char>, b: Seq<char>) -> bool {
    exists|n: int| before_at(a, b, n)
}

/// No text comes before itself.
pub proof fn lemma_text_before_irreflexive(a: Seq<char>)
    ensures
        !text_before(a, a),
{
}

/// The order on texts is transitive.
pub proof fn lemma_text_before_transitive(a: Seq<char>, b: Seq<char>, c: Seq<char>)
    requires
        text_before(a, b),
        text_before(b, c),
    ensures
        text_before(a, c),
{
    let n1 = choose|n: int| before_at(a, b, n);
    let n2 = choose|n: int| before_at(b, c, n);
    if n1 < n2 {
        assert(before_at(a, c, n1));
    } else if n2 < n1 {
        assert(before_at(a, c, n2));
    } else {
        assert(before_at(a, c, n1));
    }
}

proof fn lemma_text_order_from(a: Seq<char>, b: Seq<char>, k: int)
    requires
        same_prefix(a, b, k),
    ensures
        a == b || text_before(a, b) || text_before(b, a),
    decreases a.len() - k,
{
    if k == a.len() && k == b.len() {
        assert(a =~= b);
    } else if k == a.len() {
        assert(before_at(a, b, k));
    } else if k == b.len() {
        assert(before_at(b, a, k));
    } else if a[k] == b[k] {
        lemma_text_order_from(a, b, k + 1);
    } else if (a[k] as int) < (b[k] as int) {
        assert(before_at(a, b, k));
    } else {
        assert((b[k] as int) < (a[k] as int));
        assert(before_at(b, a, k));
    }
}

/// Any two texts are equal or one comes before the other, and not both ways.
pub proof fn lemma_text_order_total(a: Seq<char>, b: Seq<char>)
    ensures
        a == b || text_before(a, b) || text_before(b, a),
        !(text_before(a, b) && text_before(b, a)),
        a == b ==> !text_before(a, b),
{
    lemma_text_order_from(a, b, 0);
    if text_before(a, b) && text_before(b, a) {
        lemma_text_before_transitive(a, b, a);
    }
}

/// How two texts compare.
#[derive(Debug, Clone, Copy, PartialEq, Eq, Structural)]
pub enum TextOrder {
    Before,
    Same,
    After,
}

/// Compares two texts character by character.
pub fn compare_text(a: &str, b: &str) -> (r: TextOrder)
    ensures
        r is Same <==> a@ == b@,
        r is Before <==> text_before(a@, b@),
        r is After <==> text_before(b@, a@),
{
    let la = a.unicode_len();
    let lb = b.unicode_len();
    let mut i: usize = 0;
    while i < la && i < lb
        invariant
            la == a@.len(),
            lb == b@.len(),
            i <= la,
            i <= lb,
            same_prefix(a@, b@, i as int),
        decreases la - i,
    {
        let ca = a.get_char(i);
        let cb = b.get_char(i);
        if (ca as u32) < (cb as u32) {
            proof {
                assert(before_at(a@, b@, i as int));
                lemma_text_order_total(a@, b@);
            }
            return TextOrder::Before;
        }
        if (cb as u32) < (ca as u32) {
            proof {
                assert(before_at(b@, a@, i as int));
                lemma_text_order_total(a@, b@);
            }
            return TextOrder::After;
        }
        proof {
            assert(ca as u32 == cb as u32);
        }
        i = i + 1;
    }
    proof {
        lemma_text_order_total(a@, b@);
    }
    if la < lb {
        proof {
            assert(before_at(a@, b@, i as int));
        }
        TextOrder::Before
    } else if lb < la {
        proof {
            assert(before_at(b@, a@, i as int));
        }
        TextOrder::After
    } else {
        proof {
            assert(a@ =~= b@);
        }
        TextOrder::Same
    }
}

/// Whether the keys of `s` are strictly ascending.
pub open spec fn keys_ascending<T>(s: Seq<(Seq<char>, T)>) -> bool {
    forall|i: int, j: int| 0 <= i < j < s.len() ==> text_before(#[trigger] s[i].0, #[trigger] s[j].0)
}

/// Whether some entry of `s` has key `k`.
pub open spec fn has_key<T>(s: Seq<(Seq<char>, T)>, k: Seq<char>) -> bool {
    exists|i: int| 0 <= i < s.len() && #[trigger] s[i].0 == k
}

/// The map from key to value that the entries `s` describe.
pub open spec fn table_map<T>(s: Seq<(Seq<char>, T)>) -> Map<Seq<char>, T> {
    Map::new(
        |k: Seq<char>| has_key(s, k),
        |k: Seq<char>| s[choose|i: int| 0 <= i < s.len() && #[trigger] s[i].0 == k].1,
    )
}

/// The keys of `s`, in order.
pub open spec fn table_keys<T>(s: Seq<(Seq<char>, T)>) -> Seq<Seq<char>> {
    s.map_values(|e: (Seq<char>, T)| e.0)
}

/// The values of `s`, in order.
pub open spec fn table_values<T>(s: Seq<(Seq<char>, T)>) -> Seq<T> {
    s.map_values(|e: (Seq<char>, T)| e.1)
}

/// In a table with ascending keys, an entry is the one value of its key.
pub proof fn lemma_table_map_at<T>(s: Seq<(Seq<char>, T)>, i: int)
    requires
        keys_ascending(s),
        0 <= i < s.len(),
    ensures
        table_map(s).dom().contains(s[i].0),
        table_map(s)[s[i].0] == s[i].1,
{
    assert(has_key(s, s[i].0));
    let j = choose|j: int| 0 <= j < s.len() && #[trigger] s[j].0 == s[i].0;
    if j < i {
        lemma_text_before_irreflexive(s[i].0);
        assert(text_before(s[j].0, s[i].0));
    } else if i < j {
        lemma_text_before_irreflexive(s[i].0);
        assert(text_before(s[i].0, s[j].0));
    }
}

/// Entries keyed by text, held in ascending key order.
#[derive(Debug)]
pub struct KeyedTable<T> {
    entries: Vec<(String, T)>,
}

/// The entries of a vector, with their keys as texts.
pub open spec fn entry_texts<T>(v: Seq<(String, T)>) -> Seq<(Seq<char>, T)> {
    v.map_values(|e: (String, T)| (e.0@, e.1))
}

impl<T> View for KeyedTable<T> {
    type V = Seq<(Seq<char>, T)>;

    closed spec fn view(&self) -> Seq<(Seq<char>, T)> {
        entry_texts(self.entries@)
    }
}

impl<T: Clone> Clone for KeyedTable<T> {
    /// A copy with the same keys, in the same order; each value is cloned.
    fn clone(&self) -> (r: Self)
        ensures
            r@.len() == self@.len(),
            forall|i: int| 0 <= i < self@.len() ==> (#[trigger] r@[i]).0 == self@[i].0,
    {
        proof {
            use_type_invariant(self);
        }
        let mut v: Vec<(String, T)> = Vec::new();
        let mut i: usize = 0;
        while i < self.entries.len()
            invariant
                i <= self.entries@.len(),
                v@.len() == i,
                forall|k: int| 0 <= k < i ==> (#[trigger] v@[k]).0@ == self.entries@[k].0@,
            decreases self.entries@.len() - i,
        {
            let key = self.entries[i].0.clone();
            let value = self.entries[i].1.clone();
            v.push((key, value));
            i = i + 1;
        }
        proof {
            let s = entry_texts(v@);
            let t = entry_texts(self.entries@);
            assert forall|a: int, b: int| 0 <= a < b < s.len() implies text_before(#[trigger] s[a].0, #[trigger] s[b].0) by {
                assert(s[a].0 == t[a].0 && s[b].0 == t[b].0);
            }
        }
        KeyedTable { entries: v }
    }
}

impl<T> KeyedTable<T> {
    #[verifier::type_invariant]
    spec fn ascending(self) -> bool {
        keys_ascending(entry_texts(self.entries@))
    }

    /// An empty table.
    pub fn new() -> (r: Self)
        ensures
            r@ == Seq::<(Seq<char>, T)>::empty(),
    {
        let r = KeyedTable { entries: Vec::new() };
        proof {
            assert(r@ =~= Seq::<(Seq<char>, T)>::empty());
        }
        r
    }

    /// A table holding `entries`, whose keys are already strictly ascending.
    pub fn from_ascending(entries: Vec<(String, T)>) -> (r: Self)
        requires
            keys_ascending(entry_texts(entries@)),
        ensures
            r@ == entry_texts(entries@),
    {
        KeyedTable { entries }
    }

    /// The keys of this table are strictly ascending.
    pub fn keys_are_ascending(&self)
        ensures
            keys_ascending(self@),
    {
        proof {
            use_type_invariant(self);
        }
    }

    /// Number of entries.
    pub fn len(&self) -> (r: usize)
        ensures
            r == self@.len(),
    {
        self.entries.len()
    }

    /// Whether the table has no entries.
    pub fn is_empty(&self) -> (r: bool)
        ensures
            r == (self@.len() == 0),
    {
        self.entries.len() == 0
    }

    /// The key of the entry at position `i`.
    pub fn key_at(&self, i: usize) -> (r: &String)
        requires
            i < self@.len(),
        ensures
            r@ == self@[i as int].0,
    {
        &self.entries[i].0
    }

    /// The value of the entry at position `i`.
    pub fn value_at(&self, i: usize) -> (r: &T)
        requires
            i < self@.len(),
        ensures
            *r == self@[i as int].1,
    {
        &self.entries[i].1
    }

    /// Position of the first entry whose key is not before `key`.
    fn lower_bound(&self, key: &str) -> (p: usize)
        ensures
            p <= self@.len(),
            forall|i: int| 0 <= i < p ==> text_before(#[trigger] self@[i].0, key@),
            p < self@.len() ==> !text_before(self@[p as int].0, key@),
    {
        let mut p: usize = 0;
        while p < self.entries.len()
            invariant
                p <= self@.len(),
                self@.len() == self.entries@.len(),
                forall|i: int| 0 <= i < p ==> text_before(#[trigger] self@[i].0, key@),
            decreases self.entries@.len() - p,
        {
            let o = compare_text(self.entries[p].0.as_str(), key);
            if o != TextOrder::Before {
                return p;
            }
            p = p + 1;
        }
        p
    }

    /// The value stored under `key`, if any.
    pub fn get(&self, key: &str) -> (r: Option<&T>)
        ensures
            match r {
                Some(x) => table_map(self@).dom().contains(key@) && *x == table_map(self@)[key@],
                None => !table_map(self@).dom().contains(key@),
            },
    {
        proof {
            use_type_invariant(self);
        }
        let p = self.lower_bound(key);
        if p < self.entries.len() {
            let o = compare_text(self.entries[p].0.as_str(), key);
            if o == TextOrder::Same {
                proof {
                    lemma_table_map_at(self@, p as int);
                }
                return Some(&self.entries[p].1);
            }
            proof {
                lemma_text_order_total(self@[p as int].0, key@);
                assert forall|i: int| 0 <= i < self@.len() implies #[trigger] self@[i].0 != key@ by {
                    if i < p {
                        lemma_text_before_irreflexive(key@);
                    } else if i > p {
                        lemma_text_before_transitive(key@, self@[p as int].0, self@[i].0);
                        lemma_text_before_irreflexive(key@);
                    }
                }
            }
        } else {
            proof {
                assert forall|i: int| 0 <= i < self@.len() implies #[trigger] self@[i].0 != key@ by {
                    lemma_text_before_irreflexive(key@);
                }
            }
        }
        None
    }

    /// Whether some entry has key `key`.
    pub fn contains_key(&self, key: &str) -> (r: bool)
        ensures
            r == table_map(self@).dom().contains(key@),
    {
        self.get(key).is_some()
    }

    /// Stores `value` under `key`, replacing the entry of that key if there
    /// is one; the keys stay ascending.
    pub fn insert(&mut self, key: String, value: T)
        ensures
            table_map(final(self)@) == table_map(old(self)@).insert(key@, value),
            keys_ascending(final(self)@),
    {
        proof {
            use_type_invariant(&*self);
        }
        let ghost old_view = self@;
        let p = self.lower_bound(key.as_str());
        let mut replace = false;
        if p < self.entries.len() {
            let o = compare_text(self.entries[p].0.as_str(), key.as_str());
            replace = o == TextOrder::Same;
        }
        let ghost k = key@;
        if replace {
            let mut entries = Vec::new();
            std::mem::swap(&mut entries, &mut self.entries);
            entries.set(p, (key, value));
            proof {
                assert(entry_texts(entries@) =~= old_view.update(p as int, (k, value)));
                let s = entry_texts(entries@);
                assert(keys_ascending(s));
                assert(table_map(s) =~= table_map(old_view).insert(k, value)) by {
                    assert forall|q: Seq<char>| #[trigger] has_key(s, q) == (has_key(old_view, q) || q == k) by {
                        if has_key(old_view, q) {
                            let i = choose|i: int| 0 <= i < old_view.len() && #[trigger] old_view[i].0 == q;
                            assert(s[i].0 == q);
                        }
                        if q == k {
                            assert(s[p as int].0 == q);
                        }
                    }
                    assert forall|q: Seq<char>| has_key(s, q) implies #[trigger] table_map(s)[q] == table_map(old_view).insert(k, value)[q] by {
                        let i = choose|i: int| 0 <= i < s.len() && #[trigger] s[i].0 == q;
                        lemma_table_map_at(s, i);
                        if q != k {
                            lemma_table_map_at(old_view, i);
                        }
                    }
                }
            }
            self.entries = entries;
        } else {
            let ghost before_k = p < old_view.len();
            proof {
                if p < old_view.len() {
                    lemma_text_order_total(old_view[p as int].0, k);
                }
            }
            let mut entries = Vec::new();
            std::mem::swap(&mut entries, &mut self.entries);
            entries.insert(p, (key, value));
            proof {
                assert(entry_texts(entries@) =~= old_view.insert(p as int, (k, value)));
                let s = entry_texts(entries@);
                assert forall|i: int, j: int| 0 <= i < j < s.len() implies text_before(#[trigger] s[i].0, #[trigger] s[j].0) by {
                    if j < p {
                    } else if j == p {
                    } else if i < p {
                        // s[i] < k < old[p] <= s[j]
                        if j - 1 == p {
                            lemma_text_before_transitive(s[i].0, k, s[j].0);
                        } else {
                            lemma_text_before_transitive(k, old_view[p as int].0, s[j].0);
                            lemma_text_before_transitive(s[i].0, k, s[j].0);
                        }
                    } else if i == p {
                        if j - 1 > p {
                            lemma_text_before_transitive(k, old_view[p as int].0, s[j].0);
                        }
                    } else {
                        assert(s[i] == old_view[i - 1]);
                        assert(s[j] == old_view[j - 1]);
                    }
                }
                assert(keys_ascending(s));
                assert(table_map(s) =~= table_map(old_view).insert(k, value)) by {
                    assert forall|q: Seq<char>| #[trigger] has_key(s, q) == (has_key(old_view, q) || q == k) by {
                        if has_key(old_view, q) {
                            let i = choose|i: int| 0 <= i < old_view.len() && #[trigger] old_view[i].0 == q;
                            if i < p {
                                assert(s[i].0 == q);
                            } else {
                                assert(s[i + 1].0 == q);
                            }
                        }
                        if q == k {
                            assert(s[p as int].0 == q);
                        }
                        if has_key(s, q) {
                            let i = choose|i: int| 0 <= i < s.len() && #[trigger] s[i].0 == q;
                            if i < p {
                                assert(old_view[i].0 == q);
                            } else if i > p {
                                assert(old_view[i - 1].0 == q);
                            }
                        }
                    }
                    assert forall|q: Seq<char>| has_key(s, q) implies #[trigger] table_map(s)[q] == table_map(old_view).insert(k, value)[q] by {
                        let i = choose|i: int| 0 <= i < s.len() && #[trigger] s[i].0 == q;
                        lemma_table_map_at(s, i);
                        if i < p {
                            lemma_table_map_at(old_view, i);
                            lemma_text_before_irreflexive(k);
                        } else if i > p {
                            lemma_table_map_at(old_view, i - 1);
                            assert(s[i] == old_view[i - 1]);
                            assert(text_before(s[p as int].0, s[i].0));
                            lemma_text_before_irreflexive(k);
                        }
                    }
                }
            }
            self.entries = entries;
        }
    }
}

} // verus!

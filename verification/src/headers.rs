//! HTTP headers as a map from names to values, kept in insertion order, and
//! the merging of repeated response headers into one value each.

use vstd::prelude::*;
use vstd::string::*;

verus! {

/// The name of a (name, value) pair, as text.
pub open spec fn name_of(p: (String, String)) -> Seq<char> {
    p.0@
}

/// Some pair of `s` has the name `n`.
pub open spec fn has_name(s: Seq<(String, String)>, n: Seq<char>) -> bool {
    exists|i: int| 0 <= i < s.len() && #[trigger] name_of(s[i]) == n
}

/// An index of `s` whose pair has the name `n` (meaningful when there is one).
pub open spec fn name_index(s: Seq<(String, String)>, n: Seq<char>) -> int {
    choose|i: int| 0 <= i < s.len() && #[trigger] name_of(s[i]) == n
}

/// No two pairs of `s` share a name.
pub open spec fn names_distinct(s: Seq<(String, String)>) -> bool {
    forall|i: int, j: int|
        0 <= i < s.len() && 0 <= j < s.len() && i != j ==> #[trigger] name_of(s[i]) != #[trigger] name_of(
            s[j],
        )
}

/// The map that a sequence of pairs with distinct names stands for.
pub open spec fn pairs_map(s: Seq<(String, String)>) -> Map<Seq<char>, Seq<char>> {
    Map::new(|n: Seq<char>| has_name(s, n), |n: Seq<char>| s[name_index(s, n)].1@)
}

/// The text of a header value as read from a response: the value when it
/// could be read as text, and empty otherwise.
pub open spec fn value_text(v: Option<String>) -> Seq<char> {
    match v {
        Some(t) => t@,
        None => Seq::empty(),
    }
}

/// The text views of a sequence of (name, value) pairs of a response.
pub open spec fn pair_views(s: Seq<(String, Option<String>)>) -> Seq<(Seq<char>, Seq<char>)> {
    s.map_values(|p: (String, Option<String>)| (p.0@, value_text(p.1)))
}

/// Adds one more value for `name`: a name seen before gets `", "` and the new
/// value appended to what it holds; a new name gets the value.
pub open spec fn merge_header(
    m: Map<Seq<char>, Seq<char>>,
    name: Seq<char>,
    value: Seq<char>,
) -> Map<Seq<char>, Seq<char>> {
    if m.contains_key(name) {
        m.insert(name, m[name] + seq![',', ' '] + value)
    } else {
        m.insert(name, value)
    }
}

/// The headers that a list of (name, value) pairs gives when the values of a
/// repeated name are joined with `", "` in the order they come.
pub open spec fn merged_headers(pairs: Seq<(Seq<char>, Seq<char>)>) -> Map<Seq<char>, Seq<char>>
    decreases pairs.len(),
{
    if pairs.len() == 0 {
        Map::empty()
    } else {
        merge_header(merged_headers(pairs.drop_last()), pairs.last().0, pairs.last().1)
    }
}

/// A map from header names to header values.
#[derive(Debug)]
pub struct Headers {
    entries: Vec<(String, String)>,
}

impl View for Headers {
    type V = Map<Seq<char>, Seq<char>>;

    closed spec fn view(&self) -> Map<Seq<char>, Seq<char>> {
        pairs_map(self.entries@)
    }
}

/// In a sequence of distinct names, the pair found for a name is the one at
/// the index that holds it.
proof fn lemma_name_index_unique(s: Seq<(String, String)>, i: int)
    requires
        names_distinct(s),
        0 <= i < s.len(),
    ensures
        has_name(s, name_of(s[i])),
        name_index(s, name_of(s[i])) == i,
{
    let n = name_of(s[i]);
    assert(has_name(s, n));
    let k = name_index(s, n);
    assert(name_of(s[k]) == n);
}

impl Headers {
    #[verifier::type_invariant]
    closed spec fn well_formed(self) -> bool {
        names_distinct(self.entries@)
    }

    /// The pairs, one per name, in the order the names were first inserted.
    pub closed spec fn entries_view(self) -> Seq<(String, String)> {
        self.entries@
    }

    /// No headers.
    pub fn new() -> (h: Headers)
        ensures
            h@ == Map::<Seq<char>, Seq<char>>::empty(),
    {
        let h = Headers { entries: Vec::new() };
        assert(pairs_map(h.entries@) =~= Map::<Seq<char>, Seq<char>>::empty());
        h
    }

    /// The number of distinct names.
    pub fn len(&self) -> (n: usize)
        ensures
            n == self@.len(),
            n == self.entries_view().len(),
    {
        proof {
            use_type_invariant(self);
            lemma_map_len(self.entries@);
        }
        self.entries.len()
    }

    /// The (name, value) pairs, one per name.
    pub fn pairs(&self) -> (p: &Vec<(String, String)>)
        ensures
            p@ == self.entries_view(),
            names_distinct(p@),
            self@ == pairs_map(p@),
    {
        proof {
            use_type_invariant(self);
        }
        &self.entries
    }

    /// The index of the pair named `name`, if any.
    fn find(&self, name: &String) -> (r: Option<usize>)
        ensures
            match r {
                Some(i) => i < self.entries@.len() && name_of(self.entries@[i as int]) == name@,
                None => !has_name(self.entries@, name@),
            },
    {
        let n = self.entries.len();
        let mut i: usize = 0;
        while i < n
            invariant
                n == self.entries@.len(),
                0 <= i <= n,
                forall|j: int| 0 <= j < i ==> #[trigger] name_of(self.entries@[j]) != name@,
            decreases n - i,
        {
            if self.entries[i].0 == *name {
                return Some(i);
            }
            i = i + 1;
        }
        None
    }

    /// The value held for `name`.
    pub fn get(&self, name: &String) -> (r: Option<&String>)
        ensures
            match r {
                Some(v) => self@.contains_key(name@) && v@ == self@[name@],
                None => !self@.contains_key(name@),
            },
    {
        proof {
            use_type_invariant(self);
        }
        match self.find(name) {
            Some(i) => {
                proof {
                    lemma_name_index_unique(self.entries@, i as int);
                }
                Some(&self.entries[i].1)
            },
            None => None,
        }
    }

    /// Sets the value of `name`, replacing the one it held.
    pub fn insert(&mut self, name: String, value: String)
        ensures
            final(self)@ == old(self)@.insert(name@, value@),
    {
        proof {
            use_type_invariant(&*self);
        }
        let ghost old_entries = self.entries@;
        let ghost n = name@;
        let ghost v = value@;
        match self.find(&name) {
            Some(i) => {
                proof {
                    lemma_name_index_unique(old_entries, i as int);
                    lemma_replace_value(old_entries, i as int, name, value);
                }
                let mut entries: Vec<(String, String)> = Vec::new();
                std::mem::swap(&mut entries, &mut self.entries);
                entries.set(i, (name, value));
                self.entries = entries;
            },
            None => {
                proof {
                    lemma_push_new_name(old_entries, name, value);
                }
                let mut entries: Vec<(String, String)> = Vec::new();
                std::mem::swap(&mut entries, &mut self.entries);
                entries.push((name, value));
                self.entries = entries;
            },
        }
        assert(self@ =~= old(self)@.insert(n, v));
    }

    /// Adds a value for `name`: appended after `", "` to the value already
    /// held, or held alone when the name is new.
    pub fn append_value(&mut self, name: String, value: String)
        ensures
            final(self)@ == merge_header(old(self)@, name@, value@),
    {
        proof {
            use_type_invariant(&*self);
        }
        let ghost old_entries = self.entries@;
        let ghost n = name@;
        let ghost v = value@;
        match self.find(&name) {
            Some(i) => {
                proof {
                    lemma_name_index_unique(old_entries, i as int);
                }
                let mut joined = self.entries[i].1.clone();
                joined.append(", ");
                joined.append(value.as_str());
                proof {
                    reveal_strlit(", ");
                    lemma_replace_value(old_entries, i as int, name, joined);
                }
                let ghost j = joined@;
                let mut entries: Vec<(String, String)> = Vec::new();
                std::mem::swap(&mut entries, &mut self.entries);
                entries.set(i, (name, joined));
                self.entries = entries;
                assert(j =~= old(self)@[n] + seq![',', ' '] + v);
            },
            None => {
                proof {
                    lemma_push_new_name(old_entries, name, value);
                }
                let mut entries: Vec<(String, String)> = Vec::new();
                std::mem::swap(&mut entries, &mut self.entries);
                entries.push((name, value));
                self.entries = entries;
            },
        }
        assert(self@ =~= merge_header(old(self)@, n, v));
    }
}

impl Clone for Headers {
    /// A copy holding the same names and values.
    fn clone(&self) -> (h: Self)
        ensures
            h@ == self@,
    {
        proof {
            use_type_invariant(self);
        }
        let n = self.entries.len();
        let mut entries: Vec<(String, String)> = Vec::new();
        let mut i: usize = 0;
        while i < n
            invariant
                n == self.entries@.len(),
                0 <= i <= n,
                entries@ == self.entries@.subrange(0, i as int),
            decreases n - i,
        {
            let name = self.entries[i].0.clone();
            let value = self.entries[i].1.clone();
            entries.push((name, value));
            i = i + 1;
            assert(entries@ =~= self.entries@.subrange(0, i as int));
        }
        assert(entries@ =~= self.entries@);
        Headers { entries }
    }
}

/// A sequence of pairs with distinct names stands for a map with one key per
/// pair.
proof fn lemma_map_len(s: Seq<(String, String)>)
    requires
        names_distinct(s),
    ensures
        pairs_map(s).len() == s.len(),
{
    let names = s.map_values(|p: (String, String)| name_of(p));
    assert(names.no_duplicates()) by {
        assert forall|i: int, j: int| 0 <= i < names.len() && 0 <= j < names.len() && i != j
            implies names[i] != names[j] by {
            assert(name_of(s[i]) != name_of(s[j]));
        }
    }
    names.unique_seq_to_set();
    assert forall|n: Seq<char>| #[trigger] names.to_set().contains(n) == has_name(s, n) by {
        if names.to_set().contains(n) {
            let k = choose|k: int| 0 <= k < names.len() && names[k] == n;
            assert(name_of(s[k]) == n);
        }
        if has_name(s, n) {
            let k = name_index(s, n);
            assert(names[k] == n);
        }
    }
    assert(pairs_map(s).dom() =~= names.to_set());
}

/// Replacing the pair at an index by one with the same name keeps the names
/// distinct and changes the map at that name only.
proof fn lemma_replace_value(s: Seq<(String, String)>, i: int, name: String, value: String)
    requires
        names_distinct(s),
        0 <= i < s.len(),
        name_of(s[i]) == name@,
    ensures
        names_distinct(s.update(i, (name, value))),
        pairs_map(s.update(i, (name, value))) == pairs_map(s).insert(name@, value@),
{
    let t = s.update(i, (name, value));
    assert forall|a: int, b: int|
        0 <= a < t.len() && 0 <= b < t.len() && a != b implies #[trigger] name_of(t[a])
        != #[trigger] name_of(t[b]) by {
        assert(name_of(t[a]) == name_of(s[a]));
        assert(name_of(t[b]) == name_of(s[b]));
    }
    assert forall|n: Seq<char>| has_name(t, n) == has_name(s, n) by {
        if has_name(t, n) {
            let k = name_index(t, n);
            assert(name_of(s[k]) == n);
        }
        if has_name(s, n) {
            let k = name_index(s, n);
            assert(name_of(t[k]) == n);
        }
    }
    assert forall|n: Seq<char>| has_name(t, n) implies t[name_index(t, n)].1@ == (if n == name@ {
        value@
    } else {
        s[name_index(s, n)].1@
    }) by {
        let k = name_index(t, n);
        lemma_name_index_unique(t, k);
        lemma_name_index_unique(s, k);
    }
    assert(pairs_map(t) =~= pairs_map(s).insert(name@, value@));
}

/// Pushing a pair with a new name keeps the names distinct and adds that name
/// to the map.
proof fn lemma_push_new_name(s: Seq<(String, String)>, name: String, value: String)
    requires
        names_distinct(s),
        !has_name(s, name@),
    ensures
        names_distinct(s.push((name, value))),
        pairs_map(s.push((name, value))) == pairs_map(s).insert(name@, value@),
{
    let t = s.push((name, value));
    assert forall|a: int, b: int|
        0 <= a < t.len() && 0 <= b < t.len() && a != b implies #[trigger] name_of(t[a])
        != #[trigger] name_of(t[b]) by {
        if a < s.len() {
            assert(name_of(t[a]) == name_of(s[a]));
        }
        if b < s.len() {
            assert(name_of(t[b]) == name_of(s[b]));
        }
    }
    assert forall|n: Seq<char>| has_name(t, n) == (has_name(s, n) || n == name@) by {
        if has_name(t, n) {
            let k = name_index(t, n);
            if k < s.len() {
                assert(name_of(s[k]) == n);
            }
        }
        if has_name(s, n) {
            let k = name_index(s, n);
            assert(name_of(t[k]) == n);
        }
        if n == name@ {
            assert(name_of(t[s.len() as int]) == n);
        }
    }
    assert forall|n: Seq<char>| has_name(t, n) implies t[name_index(t, n)].1@ == (if n == name@ {
        value@
    } else {
        s[name_index(s, n)].1@
    }) by {
        let k = name_index(t, n);
        lemma_name_index_unique(t, k);
        if k < s.len() {
            lemma_name_index_unique(s, k);
        }
    }
    assert(pairs_map(t) =~= pairs_map(s).insert(name@, value@));
}

/// Collects the (name, value) pairs of a response into headers, joining the
/// values of a repeated name with `", "` in the order they come. A value that
/// could not be read as text (`None`) counts as empty.
pub fn collect_response_headers(pairs: &Vec<(String, Option<String>)>) -> (h: Headers)
    ensures
        h@ == merged_headers(pair_views(pairs@)),
{
    let mut h = Headers::new();
    let n = pairs.len();
    let mut i: usize = 0;
    while i < n
        invariant
            n == pairs@.len(),
            0 <= i <= n,
            h@ == merged_headers(pair_views(pairs@.subrange(0, i as int))),
        decreases n - i,
    {
        let name = pairs[i].0.clone();
        let value = match &pairs[i].1 {
            Some(v) => v.clone(),
            None => String::new(),
        };
        h.append_value(name, value);
        i = i + 1;
        assert(pair_views(pairs@.subrange(0, i as int)).drop_last() =~= pair_views(
            pairs@.subrange(0, (i - 1) as int),
        ));
    }
    assert(pairs@.subrange(0, n as int) =~= pairs@);
    h
}

} // verus!

//! Attribute mappings attached to an authenticated identity.
//!
//! An identity carries a mapping from attribute names to values (key
//! unique, unordered). Some attribute names are configured as private:
//! they are removed from the mapping before a login result is handed to
//! an interactive client.

use vstd::prelude::*;

verus! {

/// No two entries share a key.
pub open spec fn attrs_unique_keys(entries: Seq<(Seq<char>, Seq<char>)>) -> bool {
    forall|i: int, j: int|
        0 <= i < j < entries.len() ==> (#[trigger] entries[i]).0 != (#[trigger] entries[j]).0
}

/// Some entry has the key `key`.
pub open spec fn attrs_has_key(entries: Seq<(Seq<char>, Seq<char>)>, key: Seq<char>) -> bool {
    exists|i: int| 0 <= i < entries.len() && (#[trigger] entries[i]).0 == key
}

/// The mapping the entries stand for; on a duplicated key the later
/// entry wins.
pub open spec fn attrs_as_map(entries: Seq<(Seq<char>, Seq<char>)>) -> Map<Seq<char>, Seq<char>>
    decreases entries.len(),
{
    if entries.len() == 0 {
        Map::empty()
    } else {
        attrs_as_map(entries.drop_last()).insert(entries.last().0, entries.last().1)
    }
}

/// Whether `name` occurs in the list of names.
pub open spec fn name_listed(names: Seq<Seq<char>>, name: Seq<char>) -> bool {
    exists|i: int| 0 <= i < names.len() && #[trigger] names[i] == name
}

/// The set of names in the list.
pub open spec fn name_set(names: Seq<Seq<char>>) -> Set<Seq<char>> {
    Set::new(|name: Seq<char>| name_listed(names, name))
}

/// The entries that remain once every entry whose key is listed in
/// `names` is removed, in their original order.
pub open spec fn visible_attrs(
    entries: Seq<(Seq<char>, Seq<char>)>,
    names: Seq<Seq<char>>,
) -> Seq<(Seq<char>, Seq<char>)> {
    entries.filter(|entry: (Seq<char>, Seq<char>)| !name_listed(names, entry.0))
}

/// Every entry kept by the filter was present before.
proof fn lemma_visible_attrs_subset(
    entries: Seq<(Seq<char>, Seq<char>)>,
    names: Seq<Seq<char>>,
    i: int,
)
    requires
        0 <= i < visible_attrs(entries, names).len(),
    ensures
        exists|j: int|
            0 <= j < entries.len() && #[trigger] entries[j] == visible_attrs(entries, names)[i],
    decreases entries.len(),
{
    reveal(Seq::filter);
    let kept = visible_attrs(entries, names);
    if entries.len() > 0 {
        let prior = visible_attrs(entries.drop_last(), names);
        if i < prior.len() {
            lemma_visible_attrs_subset(entries.drop_last(), names, i);
            let j = choose|j: int|
                0 <= j < entries.drop_last().len() && #[trigger] entries.drop_last()[j] == prior[i];
            assert(entries[j] == kept[i]);
        } else {
            assert(entries[entries.len() - 1] == kept[i]);
        }
    }
}

/// Removing entries keeps the remaining keys unique.
pub proof fn lemma_visible_attrs_unique(
    entries: Seq<(Seq<char>, Seq<char>)>,
    names: Seq<Seq<char>>,
)
    requires
        attrs_unique_keys(entries),
    ensures
        attrs_unique_keys(visible_attrs(entries, names)),
    decreases entries.len(),
{
    reveal(Seq::filter);
    let kept = visible_attrs(entries, names);
    if entries.len() > 0 {
        lemma_visible_attrs_unique(entries.drop_last(), names);
        let prior = visible_attrs(entries.drop_last(), names);
        assert forall|i: int, j: int|
            0 <= i < j < kept.len() implies (#[trigger] kept[i]).0 != (#[trigger] kept[j]).0 by {
            if j < prior.len() {
                assert(prior[i] == kept[i] && prior[j] == kept[j]);
            } else {
                lemma_visible_attrs_subset(entries.drop_last(), names, i);
                let w = choose|w: int|
                    0 <= w < entries.drop_last().len() && #[trigger] entries.drop_last()[w]
                        == prior[i];
                assert(entries[w].0 != entries.last().0);
            }
        }
    }
}

/// Filtering the entries by the listed names is exactly set difference
/// on the mapping they stand for: the visible mapping is the original
/// mapping with every listed key removed.
pub proof fn lemma_visible_attrs_is_set_difference(
    entries: Seq<(Seq<char>, Seq<char>)>,
    names: Seq<Seq<char>>,
)
    ensures
        attrs_as_map(visible_attrs(entries, names)) =~= attrs_as_map(entries).remove_keys(
            name_set(names),
        ),
    decreases entries.len(),
{
    reveal(Seq::filter);
    if entries.len() > 0 {
        let rest = entries.drop_last();
        let (key, value) = entries.last();
        lemma_visible_attrs_is_set_difference(rest, names);
        if name_listed(names, key) {
            assert(visible_attrs(entries, names) == visible_attrs(rest, names));
        } else {
            let kept = visible_attrs(rest, names).push((key, value));
            assert(visible_attrs(entries, names) == kept);
            assert(kept.drop_last() =~= visible_attrs(rest, names));
            assert(attrs_as_map(kept) == attrs_as_map(visible_attrs(rest, names)).insert(
                key,
                value,
            ));
        }
    }
}

/// A key is in the mapping's domain exactly when some entry has it.
pub proof fn lemma_as_map_domain(entries: Seq<(Seq<char>, Seq<char>)>, key: Seq<char>)
    ensures
        attrs_as_map(entries).dom().contains(key) == attrs_has_key(entries, key),
    decreases entries.len(),
{
    if entries.len() > 0 {
        lemma_as_map_domain(entries.drop_last(), key);
        if attrs_has_key(entries, key) && entries.last().0 != key {
            let i = choose|i: int| 0 <= i < entries.len() && (#[trigger] entries[i]).0 == key;
            assert(entries.drop_last()[i] == entries[i]);
        }
    }
}

/// With unique keys, each entry is what the mapping stores under its key.
pub proof fn lemma_as_map_entry(entries: Seq<(Seq<char>, Seq<char>)>, i: int)
    requires
        attrs_unique_keys(entries),
        0 <= i < entries.len(),
    ensures
        attrs_as_map(entries).dom().contains(entries[i].0),
        attrs_as_map(entries)[entries[i].0] == entries[i].1,
    decreases entries.len(),
{
    if i == entries.len() - 1 {
        lemma_as_map_domain(entries, entries[i].0);
    } else {
        assert(entries.drop_last()[i] == entries[i]);
        lemma_as_map_entry(entries.drop_last(), i);
    }
}

/// Whether `name` occurs in the list, by scanning.
fn name_in(names: &Vec<String>, name: &String) -> (listed: bool)
    ensures
        listed == name_listed(names.deep_view(), name@),
{
    let mut i: usize = 0;
    while i < names.len()
        invariant
            i <= names@.len(),
            forall|j: int| 0 <= j < i ==> names.deep_view()[j] != name@,
        decreases names@.len() - i,
    {
        if names[i].eq(name) {
            assert(names.deep_view()[i as int] == name@);
            return true;
        }
        assert(names.deep_view()[i as int] == names@[i as int]@);
        i += 1;
    }
    false
}

/// An identity's attribute mapping: names to values, keys unique.
#[derive(Debug, PartialEq, Eq)]
pub struct Attributes {
    entries: Vec<(String, String)>,
}

impl View for Attributes {
    type V = Seq<(Seq<char>, Seq<char>)>;

    closed spec fn view(&self) -> Seq<(Seq<char>, Seq<char>)> {
        Seq::new(self.entries@.len(), |i: int| (self.entries@[i].0@, self.entries@[i].1@))
    }
}

impl Attributes {
    /// The keys are unique, as a mapping requires.
    pub open spec fn wf(&self) -> bool {
        attrs_unique_keys(self@)
    }

    /// The mapping these attributes stand for.
    pub open spec fn as_map(&self) -> Map<Seq<char>, Seq<char>> {
        attrs_as_map(self@)
    }

    pub fn new() -> (attrs: Attributes)
        ensures
            attrs@ =~= Seq::<(Seq<char>, Seq<char>)>::empty(),
            attrs.wf(),
    {
        Attributes { entries: Vec::new() }
    }

    pub fn len(&self) -> (n: usize)
        ensures
            n == self@.len(),
    {
        self.entries.len()
    }

    /// The entry at a position, as name and value.
    pub fn entry(&self, i: usize) -> (entry: (&String, &String))
        requires
            i < self@.len(),
        ensures
            (entry.0@, entry.1@) == self@[i as int],
    {
        let pair = &self.entries[i];
        (&pair.0, &pair.1)
    }

    /// Whether some entry has the given name.
    pub fn has(&self, name: &String) -> (present: bool)
        ensures
            present == attrs_has_key(self@, name@),
    {
        let mut i: usize = 0;
        while i < self.entries.len()
            invariant
                i <= self.entries.len(),
                forall|j: int| 0 <= j < i ==> (#[trigger] self@[j]).0 != name@,
            decreases self.entries.len() - i,
        {
            if self.entries[i].0.eq(name) {
                assert(self@[i as int].0 == name@);
                return true;
            }
            i += 1;
        }
        false
    }

    /// Whether no two entries share a key, by scanning.
    pub fn keys_unique(&self) -> (unique: bool)
        ensures
            unique == attrs_unique_keys(self@),
    {
        let mut i: usize = 0;
        while i < self.entries.len()
            invariant
                i <= self.entries.len(),
                forall|a: int, b: int|
                    0 <= a < b < i ==> (#[trigger] self@[a]).0 != (#[trigger] self@[b]).0,
            decreases self.entries.len() - i,
        {
            let mut j: usize = 0;
            while j < i
                invariant
                    j <= i < self.entries.len(),
                    forall|b: int| 0 <= b < j ==> (#[trigger] self@[b]).0 != self@[i as int].0,
                decreases i - j,
            {
                if self.entries[j].0.eq(&self.entries[i].0) {
                    assert(self@[j as int].0 == self@[i as int].0);
                    return false;
                }
                j += 1;
            }
            i += 1;
        }
        true
    }

    /// The value stored under the given name, if any.
    pub fn get(&self, name: &String) -> (value: Option<&String>)
        requires
            self.wf(),
        ensures
            match value {
                Some(v) => attrs_has_key(self@, name@) && exists|i: int|
                    0 <= i < self@.len() && #[trigger] self@[i] == (name@, v@),
                None => !attrs_has_key(self@, name@),
            },
    {
        let mut i: usize = 0;
        while i < self.entries.len()
            invariant
                i <= self.entries.len(),
                forall|j: int| 0 <= j < i ==> (#[trigger] self@[j]).0 != name@,
            decreases self.entries.len() - i,
        {
            if self.entries[i].0.eq(name) {
                assert(self@[i as int] == (name@, self.entries@[i as int].1@));
                return Some(&self.entries[i].1);
            }
            i += 1;
        }
        None
    }

    /// The entries that remain once every entry whose key is listed in
    /// `names` is removed: the mapping an interactive client may see
    /// when `names` are the private attribute names.
    pub fn filtered(&self, names: &Vec<String>) -> (kept: Attributes)
        ensures
            kept@ == visible_attrs(self@, names.deep_view()),
            self.wf() ==> kept.wf(),
    {
        let ghost named: Seq<Seq<char>> = names.deep_view();
        let mut entries: Vec<(String, String)> = Vec::new();
        let mut i: usize = 0;
        while i < self.entries.len()
            invariant
                i <= self.entries.len(),
                named == names.deep_view(),
                Seq::new(entries@.len(), |k: int| (entries@[k].0@, entries@[k].1@))
                    =~= visible_attrs(self@.take(i as int), named),
            decreases self.entries.len() - i,
        {
            let ghost kept_before = Seq::new(
                entries@.len(),
                |k: int| (entries@[k].0@, entries@[k].1@),
            );
            proof {
                reveal(Seq::filter);
                assert(self@.take(i + 1).drop_last() =~= self@.take(i as int));
                assert(self@.take(i + 1).last() == self@[i as int]);
            }
            if !name_in(names, &self.entries[i].0) {
                let name = self.entries[i].0.clone();
                let value = self.entries[i].1.clone();
                entries.push((name, value));
                proof {
                    assert(Seq::new(entries@.len(), |k: int| (entries@[k].0@, entries@[k].1@))
                        =~= kept_before.push(self@[i as int]));
                }
            }
            i += 1;
        }
        proof {
            assert(self@.take(self@.len() as int) =~= self@);
        }
        let kept = Attributes { entries };
        proof {
            if self.wf() {
                lemma_visible_attrs_unique(self@, named);
            }
        }
        kept
    }

    /// Add an entry; an existing entry under the same name is left
    /// alone and the addition refused.
    pub fn add(&mut self, name: String, value: String) -> (added: bool)
        ensures
            added == !attrs_has_key(old(self)@, name@),
            added ==> final(self)@ =~= old(self)@.push((name@, value@)),
            !added ==> final(self)@ == old(self)@,
            old(self).wf() ==> final(self).wf(),
    {
        if self.has(&name) {
            false
        } else {
            let ghost before = self@;
            let ghost pushed_name = name@;
            let ghost pushed_value = value@;
            self.entries.push((name, value));
            assert(self@ =~= before.push((pushed_name, pushed_value)));
            true
        }
    }
}

impl Clone for Attributes {
    fn clone(&self) -> (result: Self)
        ensures
            result@ == self@,
    {
        let mut entries: Vec<(String, String)> = Vec::new();
        let mut i: usize = 0;
        while i < self.entries.len()
            invariant
                i <= self.entries.len(),
                entries@.len() == i,
                forall|j: int| 0 <= j < i ==> (entries@[j].0@, entries@[j].1@) == self@[j],
            decreases self.entries.len() - i,
        {
            let name = self.entries[i].0.clone();
            let value = self.entries[i].1.clone();
            entries.push((name, value));
            i += 1;
        }
        let result = Attributes { entries };
        assert(result@ =~= self@);
        result
    }
}

} // verus!

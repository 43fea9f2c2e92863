//! The aggregation map the extraction views feed: tag keys mapped to ordered
//! lists of values.  Keys are unique and keep the order in which they were
//! first added; values under one key keep the order in which they arrived.
use vstd::prelude::*;
use crate::text::push_char;

verus! {

/// One key of the map together with its ordered values.
#[derive(Debug, Clone, PartialEq)]
pub struct TagEntry {
    pub key: String,
    pub values: Vec<String>,
}

/// The mathematical shape of one entry: the key's characters and the values'
/// character sequences.
pub type TagEntryView = (Seq<char>, Seq<Seq<char>>);

impl View for TagEntry {
    type V = TagEntryView;

    open spec fn view(&self) -> TagEntryView {
        (self.key@, self.values.deep_view())
    }
}

impl DeepView for TagEntry {
    type V = TagEntryView;

    open spec fn deep_view(&self) -> TagEntryView {
        self@
    }
}

/// Adds values under a key: appended to the first entry with that key, or as
/// a new entry at the end when the key is not present yet.
pub open spec fn map_add(
    m: Seq<TagEntryView>,
    key: Seq<char>,
    vals: Seq<Seq<char>>,
) -> Seq<TagEntryView>
    decreases m.len(),
{
    if m.len() == 0 {
        seq![(key, vals)]
    } else if m[0].0 == key {
        seq![(m[0].0, m[0].1 + vals)] + m.drop_first()
    } else {
        seq![m[0]] + map_add(m.drop_first(), key, vals)
    }
}

/// No two entries share a key.
pub open spec fn unique_keys(m: Seq<TagEntryView>) -> bool {
    forall|i: int, j: int| 0 <= i < j < m.len() ==> m[i].0 != m[j].0
}

/// Adding under a key that occurs first at position `i` appends the values to
/// that entry and leaves everything else unchanged.
proof fn lemma_map_add_found(m: Seq<TagEntryView>, key: Seq<char>, vals: Seq<Seq<char>>, i: int)
    requires
        0 <= i < m.len(),
        m[i].0 == key,
        forall|j: int| 0 <= j < i ==> m[j].0 != key,
    ensures
        map_add(m, key, vals) =~= m.update(i, (m[i].0, m[i].1 + vals)),
    decreases i,
{
    if i == 0 {
        assert(map_add(m, key, vals) =~= m.update(0, (m[0].0, m[0].1 + vals)));
    } else {
        lemma_map_add_found(m.drop_first(), key, vals, i - 1);
        assert(map_add(m, key, vals) =~= m.update(i, (m[i].0, m[i].1 + vals)));
    }
}

/// Adding under a key that no entry holds appends a new entry at the end.
proof fn lemma_map_add_absent(m: Seq<TagEntryView>, key: Seq<char>, vals: Seq<Seq<char>>)
    requires
        forall|j: int| 0 <= j < m.len() ==> m[j].0 != key,
    ensures
        map_add(m, key, vals) =~= m.push((key, vals)),
    decreases m.len(),
{
    if m.len() > 0 {
        lemma_map_add_absent(m.drop_first(), key, vals);
        assert(map_add(m, key, vals) =~= m.push((key, vals)));
    }
}

/// The aggregation map: ordered, with unique keys.
#[derive(Debug, Clone, PartialEq)]
pub struct TagMap {
    entries: Vec<TagEntry>,
}

impl View for TagMap {
    type V = Seq<TagEntryView>;

    closed spec fn view(&self) -> Seq<TagEntryView> {
        Seq::new(self.entries@.len(), |i: int| self.entries@[i]@)
    }
}

impl TagMap {
    /// Every key occurs at most once.
    pub open spec fn wf(&self) -> bool {
        unique_keys(self@)
    }

    /// An empty map.
    pub fn new() -> (r: TagMap)
        ensures
            r@ =~= Seq::<TagEntryView>::empty(),
            r.wf(),
    {
        let r = TagMap { entries: Vec::new() };
        proof {
            assert(r@ =~= Seq::<TagEntryView>::empty());
        }
        r
    }

    /// Adds a list of values under a key, keeping entry order and key
    /// uniqueness.
    pub fn add_id_list(&mut self, id: &str, values: Vec<String>)
        ensures
            final(self)@ =~= map_add(old(self)@, id@, values.deep_view()),
            old(self).wf() ==> final(self).wf(),
    {
        let ghost m = self@;
        let ghost vals = values.deep_view();
        let id_string: String = id.to_owned();
        let n: usize = self.entries.len();
        let mut i: usize = 0;
        while i < n
            invariant
                n == self.entries@.len(),
                i <= n,
                self@ == m,
                m == old(self)@,
                id_string@ == id@,
                vals == values.deep_view(),
                forall|j: int| 0 <= j < i ==> m[j].0 != id@,
            decreases n - i,
        {
            if self.entries[i].key == id_string {
                let mut vs = values;
                let ghost before: Seq<String> = self.entries@[i as int].values@;
                let ghost moved: Seq<String> = vs@;
                self.entries[i].values.append(&mut vs);
                proof {
                    assert(self.entries@[i as int].values@ =~= before + moved);
                    assert(self.entries@[i as int]@.1 =~= m[i as int].1 + vals);
                    assert(self@ =~= m.update(i as int, (m[i as int].0, m[i as int].1 + vals)));
                    lemma_map_add_found(m, id@, vals, i as int);
                    if unique_keys(m) {
                        assert(unique_keys(self@));
                    }
                }
                return ;
            }
            i = i + 1;
        }
        let entry = TagEntry { key: id_string, values };
        self.entries.push(entry);
        proof {
            assert(self@ =~= m.push((id@, vals)));
            lemma_map_add_absent(m, id@, vals);
            if unique_keys(m) {
                assert(unique_keys(self@));
            }
        }
    }

    /// Adds one value under a key.
    pub fn add_id(&mut self, id: &str, value: String)
        ensures
            final(self)@ =~= map_add(old(self)@, id@, seq![value@]),
            old(self).wf() ==> final(self).wf(),
    {
        let ghost v = value@;
        let mut values: Vec<String> = Vec::new();
        values.push(value);
        proof {
            assert(values.deep_view() =~= seq![v]);
        }
        self.add_id_list(id, values);
    }

    /// Adds one value under the combined key `id:description`.
    pub fn add_combined(&mut self, id: &str, description: &str, value: String)
        ensures
            final(self)@ =~= map_add(old(self)@, id@ + seq![':'] + description@, seq![value@]),
            old(self).wf() ==> final(self).wf(),
    {
        let mut combined = id.to_owned();
        push_char(&mut combined, ':');
        combined.append(description);
        proof {
            assert(combined@ =~= id@ + seq![':'] + description@);
        }
        let ghost v = value@;
        let mut values: Vec<String> = Vec::new();
        values.push(value);
        proof {
            assert(values.deep_view() =~= seq![v]);
        }
        self.add_id_list(combined.as_str(), values);
    }

    /// The number of keys in the map.
    pub fn len(&self) -> (r: usize)
        ensures
            r == self@.len(),
    {
        self.entries.len()
    }

    /// The key at one position.
    pub fn key_at(&self, i: usize) -> (r: &String)
        requires
            i < self@.len(),
        ensures
            r@ == self@[i as int].0,
    {
        &self.entries[i].key
    }

    /// The values at one position.
    pub fn values_at(&self, i: usize) -> (r: &Vec<String>)
        requires
            i < self@.len(),
        ensures
            r.deep_view() == self@[i as int].1,
    {
        &self.entries[i].values
    }
}

} // verus!

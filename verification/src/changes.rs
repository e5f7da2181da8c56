//! The file changes of a patch, keyed by path: each path occurs once.
use vstd::prelude::*;

use crate::json::{lemma_member_text_injective, member_text, object_text, JsonEncode, JsonObject};
use crate::protocol::FileChange;

verus! {

/// The map that a sequence of entries denotes, later entries winning.
pub open spec fn entry_map(s: Seq<(Seq<char>, FileChange)>) -> Map<Seq<char>, FileChange>
    decreases s.len(),
{
    if s.len() == 0 {
        Map::empty()
    } else {
        entry_map(s.drop_last()).insert(s.last().0, s.last().1)
    }
}

/// No two entries share a path.
pub open spec fn distinct_keys(s: Seq<(Seq<char>, FileChange)>) -> bool {
    forall|i: int, j: int| 0 <= i < j < s.len() ==> s[i].0 != s[j].0
}

/// With distinct paths, each entry is found under its path, and nothing else is found.
pub proof fn lemma_entry_map_lookup(s: Seq<(Seq<char>, FileChange)>)
    requires
        distinct_keys(s),
    ensures
        forall|i: int| 0 <= i < s.len() ==> #[trigger] entry_map(s).contains_key(s[i].0) && entry_map(s)[s[i].0] == s[i].1,
        forall|k: Seq<char>| #[trigger] entry_map(s).contains_key(k) ==> exists|i: int| 0 <= i < s.len() && s[i].0 == k,
    decreases s.len(),
{
    if s.len() > 0 {
        let t = s.drop_last();
        assert(distinct_keys(t));
        lemma_entry_map_lookup(t);
        assert forall|i: int| 0 <= i < s.len() implies #[trigger] entry_map(s).contains_key(s[i].0) && entry_map(s)[s[i].0] == s[i].1 by {
            if i < s.len() - 1 {
                assert(t[i] == s[i]);
                assert(s[i].0 != s[s.len() - 1].0);
                assert(entry_map(t).contains_key(t[i].0));
            }
        }
        assert forall|k: Seq<char>| #[trigger] entry_map(s).contains_key(k) implies exists|i: int| 0 <= i < s.len() && s[i].0 == k by {
            if k != s.last().0 {
                assert(entry_map(t).contains_key(k));
                let i = choose|i: int| 0 <= i < t.len() && t[i].0 == k;
                assert(s[i] == t[i]);
            } else {
                assert(s[s.len() - 1].0 == k);
            }
        }
    }
}

/// Replacing the change of an existing path is an insertion into the map.
pub proof fn lemma_entry_map_update(s: Seq<(Seq<char>, FileChange)>, j: int, c: FileChange)
    requires
        distinct_keys(s),
        0 <= j < s.len(),
    ensures
        entry_map(s.update(j, (s[j].0, c))) == entry_map(s).insert(s[j].0, c),
    decreases s.len(),
{
    let k = s[j].0;
    let u = s.update(j, (k, c));
    if j == s.len() - 1 {
        assert(u.drop_last() =~= s.drop_last());
        assert(entry_map(u) =~= entry_map(s).insert(k, c));
    } else {
        let t = s.drop_last();
        assert(distinct_keys(t));
        assert(u.drop_last() =~= t.update(j, (k, c)));
        assert(t[j] == s[j]);
        lemma_entry_map_update(t, j, c);
        assert(s.last().0 != k);
        assert(u.last() == s.last());
        assert(entry_map(u) =~= entry_map(s).insert(k, c));
    }
}

/// Entries with their paths taken by their characters.
pub open spec fn entry_views(v: Seq<(String, FileChange)>) -> Seq<(Seq<char>, FileChange)> {
    v.map_values(|e: (String, FileChange)| (e.0@, e.1))
}

/// The changes of a patch: entries in the order they were first inserted,
/// no path twice.
pub struct ChangeSet {
    entries: Vec<(String, FileChange)>,
}

impl ChangeSet {
    /// The entries, paths taken by their characters.
    pub closed spec fn entries(self) -> Seq<(Seq<char>, FileChange)> {
        entry_views(self.entries@)
    }

    #[verifier::type_invariant]
    closed spec fn paths_distinct(self) -> bool {
        distinct_keys(self.entries())
    }

    /// A change set with no entries.
    pub fn new() -> (r: ChangeSet)
        ensures
            r.entries() == Seq::<(Seq<char>, FileChange)>::empty(),
            r@ == Map::<Seq<char>, FileChange>::empty(),
            distinct_keys(r.entries()),
    {
        let r = ChangeSet { entries: Vec::new() };
        proof {
            assert(r.entries() =~= Seq::<(Seq<char>, FileChange)>::empty());
        }
        r
    }

    /// The number of paths.
    pub fn len(&self) -> (r: usize)
        ensures
            r == self.entries().len(),
            r == self@.len(),
            distinct_keys(self.entries()),
    {
        proof {
            use_type_invariant(self);
            lemma_entry_map_dom(self.entries());
        }
        self.entries.len()
    }

    /// Sets the change of `path`: an existing entry keeps its place and takes
    /// the new change; a new path is appended.
    pub fn insert(&mut self, path: String, change: FileChange)
        ensures
            final(self)@ == old(self)@.insert(path@, change),
            distinct_keys(final(self).entries()),
            (exists|i: int| 0 <= i < old(self).entries().len() && old(self).entries()[i].0 == path@)
                ==> (exists|i: int| 0 <= i < old(self).entries().len() && old(self).entries()[i].0 == path@
                    && final(self).entries() == old(self).entries().update(i, (path@, change))),
            !(exists|i: int| 0 <= i < old(self).entries().len() && old(self).entries()[i].0 == path@)
                ==> final(self).entries() == old(self).entries().push((path@, change)),
    {
        proof {
            use_type_invariant(&*self);
        }
        let ghost old_entries = self.entries();
        let mut entries: Vec<(String, FileChange)> = Vec::new();
        std::mem::swap(&mut entries, &mut self.entries);
        let mut i: usize = 0;
        let mut found = false;
        while i < entries.len()
            invariant_except_break
                !found,
            invariant
                i <= entries@.len(),
                entry_views(entries@) == old_entries,
                distinct_keys(old_entries),
                forall|j: int| 0 <= j < i ==> old_entries[j].0 != path@,
            ensures
                i <= entries@.len(),
                entry_views(entries@) == old_entries,
                found ==> i < entries@.len() && old_entries[i as int].0 == path@,
                !found ==> forall|j: int| 0 <= j < old_entries.len() ==> old_entries[j].0 != path@,
            decreases entries@.len() - i,
        {
            if entries[i].0 == path {
                proof {
                    assert(old_entries[i as int] == (entries@[i as int].0@, entries@[i as int].1));
                }
                found = true;
                break;
            }
            i += 1;
        }
        if found {
            let ghost new_entries = old_entries.update(i as int, (path@, change));
            entries.set(i, (path, change));
            proof {
                assert(entry_views(entries@) =~= new_entries);
                assert(distinct_keys(new_entries));
                lemma_entry_map_update(old_entries, i as int, change);
            }
            self.entries = entries;
        } else {
            let ghost new_entries = old_entries.push((path@, change));
            entries.push((path, change));
            proof {
                assert(entry_views(entries@) =~= new_entries);
                assert(distinct_keys(new_entries));
                assert(new_entries.drop_last() =~= old_entries);
            }
            self.entries = entries;
        }
    }

    /// The change recorded for `path`, if any.
    pub fn get(&self, path: &String) -> (r: Option<&FileChange>)
        ensures
            r matches Some(c) ==> self@.contains_key(path@) && *c == self@[path@],
            r is None ==> !self@.contains_key(path@),
            distinct_keys(self.entries()),
    {
        proof {
            use_type_invariant(self);
            lemma_entry_map_lookup(self.entries());
        }
        let mut i: usize = 0;
        while i < self.entries.len()
            invariant
                i <= self.entries@.len(),
                forall|j: int| 0 <= j < i ==> self.entries()[j].0 != path@,
                distinct_keys(self.entries()),
                forall|j: int| 0 <= j < self.entries().len() ==> #[trigger] self@.contains_key(self.entries()[j].0) && self@[self.entries()[j].0] == self.entries()[j].1,
                forall|k: Seq<char>| #[trigger] self@.contains_key(k) ==> exists|j: int| 0 <= j < self.entries().len() && self.entries()[j].0 == k,
            decreases self.entries@.len() - i,
        {
            if self.entries[i].0 == *path {
                proof {
                    assert(self.entries()[i as int] == (self.entries@[i as int].0@, self.entries@[i as int].1));
                    assert(self@.contains_key(self.entries()[i as int].0));
                }
                return Some(&self.entries[i].1);
            }
            i += 1;
        }
        None
    }
}

/// The domain of the denoted map is finite and has one key per entry.
pub proof fn lemma_entry_map_dom(s: Seq<(Seq<char>, FileChange)>)
    requires
        distinct_keys(s),
    ensures
        entry_map(s).dom().finite(),
        entry_map(s).len() == s.len(),
    decreases s.len(),
{
    if s.len() > 0 {
        let t = s.drop_last();
        assert(distinct_keys(t));
        lemma_entry_map_dom(t);
        lemma_entry_map_lookup(t);
        if entry_map(t).contains_key(s.last().0) {
            let i = choose|i: int| 0 <= i < t.len() && t[i].0 == s.last().0;
            assert(s[i].0 == s[s.len() - 1].0);
        }
    }
}

impl View for ChangeSet {
    type V = Map<Seq<char>, FileChange>;

    closed spec fn view(&self) -> Map<Seq<char>, FileChange> {
        entry_map(self.entries())
    }
}

/// The object members of change entries: each path keys its change.
pub open spec fn change_members(s: Seq<(Seq<char>, FileChange)>) -> Seq<Seq<char>> {
    s.map_values(|e: (Seq<char>, FileChange)| member_text(e.0, e.1.json_text()))
}

/// In the object of entries with distinct paths, each path keys exactly one
/// member, and that member holds the path's change.
pub proof fn lemma_change_members_keyed_once(s: Seq<(Seq<char>, FileChange)>)
    requires
        distinct_keys(s),
    ensures
        change_members(s).len() == s.len(),
        forall|i: int| 0 <= i < s.len() ==> #[trigger] change_members(s)[i] == member_text(s[i].0, s[i].1.json_text()),
        forall|i: int, j: int, k: Seq<char>, v: Seq<char>, w: Seq<char>|
            #![trigger change_members(s)[i], change_members(s)[j], member_text(k, v), member_text(k, w)]
            0 <= i < s.len() && 0 <= j < s.len() && change_members(s)[i] == member_text(k, v)
                && change_members(s)[j] == member_text(k, w) ==> i == j,
{
    assert forall|i: int, j: int, k: Seq<char>, v: Seq<char>, w: Seq<char>|
        #![trigger change_members(s)[i], change_members(s)[j], member_text(k, v), member_text(k, w)]
        0 <= i < s.len() && 0 <= j < s.len() && change_members(s)[i] == member_text(k, v)
            && change_members(s)[j] == member_text(k, w) implies i == j by {
        lemma_member_text_injective(s[i].0, s[i].1.json_text(), k, v);
        lemma_member_text_injective(s[j].0, s[j].1.json_text(), k, w);
        if i < j {
            assert(s[i].0 != s[j].0);
        } else if j < i {
            assert(s[j].0 != s[i].0);
        }
    }
}

impl JsonEncode for ChangeSet {
    open spec fn json_text(&self) -> Seq<char> {
        object_text(change_members(self.entries()))
    }

    fn to_json(&self) -> (r: String)
        ensures
            distinct_keys(self.entries()),
    {
        proof {
            use_type_invariant(self);
        }
        let mut o = JsonObject::new();
        let mut i: usize = 0;
        while i < self.entries.len()
            invariant
                i <= self.entries@.len(),
                o@ == self.entries().take(i as int).map_values(
                    |e: (Seq<char>, FileChange)| member_text(e.0, e.1.json_text()),
                ),
            decreases self.entries@.len() - i,
        {
            let entry = &self.entries[i];
            o.add(entry.0.as_str(), entry.1.to_json());
            proof {
                assert(self.entries().take(i + 1).map_values(
                    |e: (Seq<char>, FileChange)| member_text(e.0, e.1.json_text()),
                ) =~= self.entries().take(i as int).map_values(
                    |e: (Seq<char>, FileChange)| member_text(e.0, e.1.json_text()),
                ).push(member_text(self.entries()[i as int].0, self.entries()[i as int].1.json_text())));
            }
            i += 1;
        }
        proof {
            assert(self.entries().take(self.entries@.len() as int) =~= self.entries());
        }
        o.finish()
    }
}

} // verus!

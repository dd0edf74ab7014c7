//! Link maps: relation names to absolute URLs, as embedded in responses.
use vstd::prelude::*;

verus! {

/// The map that a list of entries stands for; a later entry of a relation
/// replaces an earlier one.
pub open spec fn entries_map(entries: Seq<(String, String)>) -> Map<Seq<char>, Seq<char>>
    decreases entries.len(),
{
    if entries.len() == 0 {
        Map::empty()
    } else {
        entries_map(entries.drop_last()).insert(entries.last().0@, entries.last().1@)
    }
}

/// A relation absent from the entries after position `from` keeps its value
/// from the entries before it.
proof fn lemma_entries_prefix(entries: Seq<(String, String)>, rel: Seq<char>, from: int)
    requires
        0 <= from <= entries.len(),
        forall|j: int| from <= j < entries.len() ==> entries[j].0@ != rel,
    ensures
        entries_map(entries).contains_key(rel) == entries_map(entries.take(from)).contains_key(rel),
        entries_map(entries).contains_key(rel) ==> entries_map(entries)[rel] == entries_map(
            entries.take(from),
        )[rel],
    decreases entries.len(),
{
    if entries.len() > from {
        let rest = entries.drop_last();
        assert(rest.take(from) == entries.take(from));
        lemma_entries_prefix(rest, rel, from);
    } else {
        assert(entries.take(from) == entries);
    }
}

/// Relation names and the URLs they lead to. Keys are unique: each relation
/// has at most one URL.
#[derive(Debug, Clone)]
pub struct LinkMap {
    entries: Vec<(String, String)>,
}

impl View for LinkMap {
    type V = Map<Seq<char>, Seq<char>>;

    closed spec fn view(&self) -> Map<Seq<char>, Seq<char>> {
        entries_map(self.entries@)
    }
}

impl LinkMap {
    /// A map with no relation.
    pub fn new() -> (r: LinkMap)
        ensures
            r@ == Map::<Seq<char>, Seq<char>>::empty(),
    {
        let r = LinkMap { entries: Vec::new() };
        assert(r@ == entries_map(r.entries@));
        r
    }

    /// Sets the URL of a relation, replacing any earlier one.
    pub fn insert(&mut self, rel: String, url: String)
        ensures
            final(self)@ == old(self)@.insert(rel@, url@),
    {
        let ghost before = self.entries@;
        self.entries.push((rel, url));
        assert(self.entries@.drop_last() == before);
    }

    /// The entries of the map; where a relation occurs twice, the later entry
    /// holds its URL.
    pub fn to_vec(&self) -> (r: Vec<(String, String)>)
        ensures
            entries_map(r@) == self@,
    {
        let mut out: Vec<(String, String)> = Vec::new();
        let mut i: usize = 0;
        while i < self.entries.len()
            invariant
                i <= self.entries@.len(),
                out@ == self.entries@.take(i as int),
            decreases self.entries.len() - i,
        {
            let rel = self.entries[i].0.clone();
            let url = self.entries[i].1.clone();
            out.push((rel, url));
            assert(out@ =~= self.entries@.take(i + 1));
            i += 1;
        }
        assert(self.entries@.take(self.entries@.len() as int) =~= self.entries@);
        out
    }

    /// The URL of a relation that may be absent: `None` when it is.
    pub fn get_optional_link(&self, rel: &str) -> (r: Option<&String>)
        ensures
            match r {
                Some(url) => self@.contains_key(rel@) && url@ == self@[rel@],
                None => !self@.contains_key(rel@),
            },
    {
        let key = rel.to_owned();
        let mut i = self.entries.len();
        while i > 0
            invariant
                i <= self.entries@.len(),
                key@ == rel@,
                forall|j: int| i <= j < self.entries@.len() ==> self.entries@[j].0@ != rel@,
            decreases i,
        {
            i -= 1;
            if self.entries[i].0 == key {
                proof {
                    lemma_entries_prefix(self.entries@, rel@, i + 1);
                    assert(self.entries@.take(i + 1).drop_last() == self.entries@.take(i as int));
                }
                return Some(&self.entries[i].1);
            }
        }
        proof {
            lemma_entries_prefix(self.entries@, rel@, 0);
            assert(self.entries@.take(0) == Seq::<(String, String)>::empty());
        }
        None
    }

    /// The URL of a relation that the response must carry.
    pub fn get_expected_link(&self, rel: &str) -> (r: &String)
        requires
            self@.contains_key(rel@),
        ensures
            r@ == self@[rel@],
    {
        self.get_optional_link(rel).unwrap()
    }
}

impl Default for LinkMap {
    fn default() -> (r: LinkMap)
        ensures
            r@ == Map::<Seq<char>, Seq<char>>::empty(),
    {
        LinkMap::new()
    }
}

} // verus!

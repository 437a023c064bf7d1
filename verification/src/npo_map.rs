//! Preprocessed rows of plug-in operations, by operation.
use crate::ops::NpoTypeId;
use vstd::prelude::*;

verus! {

/// A `hashbrown::HashMap` from operation names to rows of canonical field elements.
#[verifier::external_body]
#[derive(Debug)]
pub struct NpoRows {
    map: hashbrown::HashMap<String, Vec<u64>>,
}

/// What a [`NpoRows`] holds: for each operation name its rows.
pub uninterp spec fn npo_rows_contents(rows: NpoRows) -> Map<Seq<char>, Seq<u64>>;

impl NpoRows {
    /// `hashbrown::HashMap::new` gives a map without entries.
    #[verifier::external_body]
    fn new() -> (res: NpoRows)
        ensures
            (npo_rows_contents(res) == Map::<Seq<char>, Seq<u64>>::empty()),
    {
        NpoRows { map: hashbrown::HashMap::new() }
    }

    /// `hashbrown::HashMap::insert` gives the key the value, in place of the value it had, and
    /// leaves the other keys as they are.
    #[verifier::external_body]
    fn insert(&mut self, op: String, rows: Vec<u64>)
        ensures
            npo_rows_contents(*final(self)) == npo_rows_contents(*old(self)).insert(op@, rows@),
    {
        self.map.insert(op, rows);
    }

    /// `hashbrown::HashMap::extend` inserts every entry of the other map; where both have a key,
    /// the other map's value replaces the own one.
    #[verifier::external_body]
    fn extend(&mut self, other: NpoRows)
        ensures
            npo_rows_contents(*final(self)) == npo_rows_contents(*old(self)).union_prefer_right(
                npo_rows_contents(other),
            ),
    {
        self.map.extend(other.map);
    }

    /// `hashbrown::HashMap::entry` followed by `Entry::or_default` gives the key an empty value
    /// if it has none, and changes nothing otherwise.
    #[verifier::external_body]
    fn entry_or_default(&mut self, op: String)
        ensures
            npo_rows_contents(*final(self)) == (if npo_rows_contents(*old(self)).dom().contains(
                op@,
            ) {
                npo_rows_contents(*old(self))
            } else {
                npo_rows_contents(*old(self)).insert(op@, Seq::<u64>::empty())
            }),
    {
        self.map.entry(op).or_default();
    }

    /// `hashbrown::HashMap::get` gives the value of the key, if it has one.
    #[verifier::external_body]
    fn get(&self, op: &String) -> (res: Option<Vec<u64>>)
        ensures
            res is Some <==> npo_rows_contents(*self).dom().contains(op@),
            res matches Some(rows) ==> rows@ == npo_rows_contents(*self)[op@],
    {
        self.map.get(op).cloned()
    }

    /// `hashbrown::HashMap::iter` visits every entry once, in an order that is not specified.
    #[verifier::external_body]
    fn iter(&self) -> (res: Vec<(String, Vec<u64>)>)
        ensures
            forall|i: int|
                0 <= i < res@.len() ==> {
                    &&& npo_rows_contents(*self).dom().contains((#[trigger] res@[i]).0@)
                    &&& npo_rows_contents(*self)[res@[i].0@] == res@[i].1@
                },
            forall|i: int, j: int|
                0 <= i < j < res@.len() ==> (#[trigger] res@[i]).0@ != (#[trigger] res@[j]).0@,
            forall|op: Seq<char>|
                npo_rows_contents(*self).dom().contains(op) ==> exists|i: int|
                    0 <= i < res@.len() && (#[trigger] res@[i]).0@ == op,
    {
        self.map.iter().map(|(op, rows)| (op.clone(), rows.clone())).collect()
    }
}

/// Preprocessed rows of plug-in operations, as canonical base-field elements.
#[derive(Debug)]
pub struct NonPrimitivePreprocessedMap {
    rows: NpoRows,
}

impl View for NonPrimitivePreprocessedMap {
    type V = Map<Seq<char>, Seq<u64>>;

    closed spec fn view(&self) -> Map<Seq<char>, Seq<u64>> {
        npo_rows_contents(self.rows)
    }
}

/// Whether `entries` lists every operation of `m` once, with its rows.
pub open spec fn lists_entries(
    m: Map<Seq<char>, Seq<u64>>,
    entries: Seq<(NpoTypeId, Vec<u64>)>,
) -> bool {
    &&& forall|i: int|
        0 <= i < entries.len() ==> m.dom().contains((#[trigger] entries[i]).0@)
            && m[entries[i].0@] == entries[i].1@
    &&& forall|i: int, j: int|
        0 <= i < j < entries.len() ==> (#[trigger] entries[i]).0@ != (#[trigger] entries[j]).0@
    &&& forall|op: Seq<char>|
        #[trigger] m.dom().contains(op) ==> exists|i: int|
            0 <= i < entries.len() && (#[trigger] entries[i]).0@ == op
}

impl NonPrimitivePreprocessedMap {
    /// No operation.
    pub fn new() -> (res: Self)
        ensures
            res@ == Map::<Seq<char>, Seq<u64>>::empty(),
    {
        NonPrimitivePreprocessedMap { rows: NpoRows::new() }
    }

    /// Set the rows of an operation.
    pub fn insert(&mut self, op: NpoTypeId, rows: Vec<u64>)
        ensures
            final(self)@ == old(self)@.insert(op@, rows@),
    {
        self.rows.insert(op.name, rows);
    }

    /// Take over the rows of every operation in `other`.
    pub fn extend(&mut self, other: NonPrimitivePreprocessedMap)
        ensures
            final(self)@ == old(self)@.union_prefer_right(other@),
    {
        self.rows.extend(other.rows);
    }

    /// Give an operation that is not listed yet an entry without rows.
    pub fn ensure_listed(&mut self, op: &NpoTypeId)
        ensures
            final(self)@ == (if old(self)@.dom().contains(op@) {
                old(self)@
            } else {
                old(self)@.insert(op@, Seq::<u64>::empty())
            }),
    {
        self.rows.entry_or_default(op.name.clone());
    }

    /// The operations with their rows, each once, in an order that is not specified.
    pub fn entries(&self) -> (res: Vec<(NpoTypeId, Vec<u64>)>)
        ensures
            lists_entries(self@, res@),
    {
        let mut raw: Vec<(String, Vec<u64>)> = self.rows.iter();
        let ghost all = raw@;
        let mut res: Vec<(NpoTypeId, Vec<u64>)> = Vec::new();
        while raw.len() > 0
            invariant
                raw@.len() + res@.len() == all.len(),
                raw@ == all.take(raw@.len() as int),
                forall|i: int|
                    0 <= i < res@.len() ==> (#[trigger] res@[i]).0.name == all[all.len() - 1 - i].0
                        && res@[i].1 == all[all.len() - 1 - i].1,
            decreases raw@.len(),
        {
            if let Some((name, rows)) = raw.pop() {
                res.push((NpoTypeId { name }, rows));
            }
        }
        assert forall|op: Seq<char>| #[trigger] self@.dom().contains(op) implies exists|i: int|
            0 <= i < res@.len() && (#[trigger] res@[i]).0@ == op by {
            let j = choose|j: int| 0 <= j < all.len() && (#[trigger] all[j]).0@ == op;
            assert(res@[all.len() - 1 - j].0@ == op);
        }
        res
    }

    /// The rows of an operation.
    pub fn get(&self, op: &NpoTypeId) -> (res: Option<Vec<u64>>)
        ensures
            res is Some <==> self@.dom().contains(op@),
            res matches Some(rows) ==> rows@ == self@[op@],
    {
        self.rows.get(&op.name)
    }
}

} // verus!

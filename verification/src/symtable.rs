//! Insertion-based symbol tables: an id-ordered store of named records with
//! lookup by id and by name.

use vstd::prelude::*;
use vstd::pervasive::VecAdditionalExecFns;

use crate::policy::PolicyObject;

verus! {

/// Implemented by any record named in the policy: it carries an id and a
/// name.
pub trait Symbol: PolicyObject {
    /// The id of a record, at the model level.
    spec fn view_id(v: Self::V) -> u32;

    /// The name of a record, at the model level.
    spec fn view_name(v: Self::V) -> Seq<u8>;

    fn id(&self) -> (r: u32)
        ensures
            r == Self::view_id(self@),
    ;

    fn name(&self) -> (r: &Vec<u8>)
        ensures
            r@ == Self::view_name(self@),
    ;
}

/// Records in strictly ascending id order: all ids are pairwise distinct.
pub open spec fn st_sorted<S: Symbol>(s: Seq<S::V>) -> bool {
    forall|i: int, j: int| 0 <= i < j < s.len() ==> S::view_id(s[i]) < S::view_id(s[j])
}

/// Insertion into the id-ordered record sequence: a record with the same id
/// replaces the stored one, any other is placed at its id's position.
pub open spec fn st_insert<S: Symbol>(s: Seq<S::V>, v: S::V) -> Seq<S::V>
    decreases s.len(),
{
    if s.len() == 0 {
        seq![v]
    } else if S::view_id(v) < S::view_id(s[0]) {
        seq![v] + s
    } else if S::view_id(v) == S::view_id(s[0]) {
        seq![v] + s.skip(1)
    } else {
        seq![s[0]] + st_insert::<S>(s.skip(1), v)
    }
}

/// The table obtained by inserting each record in order into an empty table.
pub open spec fn st_from_records<S: Symbol>(rs: Seq<S::V>) -> Seq<S::V>
    decreases rs.len(),
{
    if rs.len() == 0 {
        Seq::empty()
    } else {
        st_insert::<S>(st_from_records::<S>(rs.drop_last()), rs.last())
    }
}

/// The first record with the given id, in table order.
pub open spec fn st_get_by_id<S: Symbol>(s: Seq<S::V>, id: u32) -> Option<S::V>
    decreases s.len(),
{
    if s.len() == 0 {
        None
    } else if S::view_id(s[0]) == id {
        Some(s[0])
    } else {
        st_get_by_id::<S>(s.skip(1), id)
    }
}

/// The first record with the given name, in table order.
pub open spec fn st_get_by_name<S: Symbol>(s: Seq<S::V>, name: Seq<u8>) -> Option<S::V>
    decreases s.len(),
{
    if s.len() == 0 {
        None
    } else if S::view_name(s[0]) == name {
        Some(s[0])
    } else {
        st_get_by_name::<S>(s.skip(1), name)
    }
}

/// Parses `n` records and builds the table by insertion.
pub open spec fn sp_symbol_table<S: Symbol>(
    d: Seq<u8>,
    p: int,
    prof: crate::profile::ProfileV,
    n: int,
) -> Result<(Seq<S::V>, int), crate::reader::ReadErrV> {
    match crate::policy::sp_objects::<S>(d, p, prof, n) {
        Ok((rs, p2)) => Ok((st_from_records::<S>(rs), p2)),
        Err(e) => Err(e),
    }
}

/// Parses a counted symbol table: `num_primary_names`, `num_elements`, then
/// that many records.
pub open spec fn sp_counted_symbol_table<S: Symbol>(
    d: Seq<u8>,
    p: int,
    prof: crate::profile::ProfileV,
) -> Result<(Seq<S::V>, int), crate::reader::ReadErrV> {
    match crate::reader::sp_u32(d, p) {
        Some((_nprim, p1)) => match crate::reader::sp_u32(d, p1) {
            Some((nel, p2)) => sp_symbol_table::<S>(d, p2, prof, nel as int),
            None => Err(crate::reader::ReadErrV::InputError),
        },
        None => Err(crate::reader::ReadErrV::InputError),
    }
}

/// `st_insert` lands at the position bounded by the ids below and above.
proof fn lemma_st_insert_at<S: Symbol>(s: Seq<S::V>, v: S::V, i: int)
    requires
        0 <= i <= s.len(),
        forall|j: int| 0 <= j < i ==> S::view_id(s[j]) < S::view_id(v),
        i < s.len() ==> S::view_id(s[i]) >= S::view_id(v),
    ensures
        st_insert::<S>(s, v) == if i < s.len() && S::view_id(s[i]) == S::view_id(v) {
            s.update(i, v)
        } else {
            s.insert(i, v)
        },
    decreases i,
{
    if i == 0 {
        if s.len() == 0 {
            assert(st_insert::<S>(s, v) =~= s.insert(0, v));
        } else if S::view_id(v) < S::view_id(s[0]) {
            assert(st_insert::<S>(s, v) =~= s.insert(0, v));
        } else {
            assert(S::view_id(s[0]) == S::view_id(v));
            assert(st_insert::<S>(s, v) =~= s.update(0, v));
        }
    } else {
        assert(S::view_id(s[0]) < S::view_id(v));
        let tail = s.skip(1);
        assert(forall|j: int| 0 <= j < i - 1 ==> S::view_id(tail[j]) < S::view_id(v));
        lemma_st_insert_at::<S>(tail, v, i - 1);
        if i < s.len() && S::view_id(s[i]) == S::view_id(v) {
            assert(st_insert::<S>(s, v) =~= s.update(i, v));
        } else {
            assert(st_insert::<S>(s, v) =~= s.insert(i, v));
        }
    }
}

/// Every record in an inserted sequence is either the inserted record or one
/// of the records already there.
proof fn lemma_st_insert_membership<S: Symbol>(s: Seq<S::V>, v: S::V, k: int)
    requires
        0 <= k < st_insert::<S>(s, v).len(),
    ensures
        st_insert::<S>(s, v)[k] == v || s.contains(st_insert::<S>(s, v)[k]),
    decreases s.len(),
{
    if s.len() == 0 {
    } else if S::view_id(v) < S::view_id(s[0]) {
    } else if S::view_id(v) == S::view_id(s[0]) {
        if k >= 1 {
            assert(st_insert::<S>(s, v)[k] == s.skip(1)[k - 1]);
            assert(s.contains(s[k]));
        }
    } else {
        if k >= 1 {
            lemma_st_insert_membership::<S>(s.skip(1), v, k - 1);
            assert(st_insert::<S>(s, v)[k] == st_insert::<S>(s.skip(1), v)[k - 1]);
            if st_insert::<S>(s.skip(1), v)[k - 1] != v {
                let w = st_insert::<S>(s.skip(1), v)[k - 1];
                let j = choose|j: int| 0 <= j < s.skip(1).len() && s.skip(1)[j] == w;
                assert(s[j + 1] == w);
            }
        } else {
            assert(s.contains(s[0]));
        }
    }
}

/// Insertion preserves the strict id order.
proof fn lemma_st_insert_sorted<S: Symbol>(s: Seq<S::V>, v: S::V)
    requires
        st_sorted::<S>(s),
    ensures
        st_sorted::<S>(st_insert::<S>(s, v)),
    decreases s.len(),
{
    let r = st_insert::<S>(s, v);
    if s.len() == 0 {
    } else if S::view_id(v) < S::view_id(s[0]) {
        assert forall|i: int, j: int| 0 <= i < j < r.len() implies S::view_id(r[i]) < S::view_id(
            r[j],
        ) by {
            if i > 0 {
                assert(r[i] == s[i - 1] && r[j] == s[j - 1]);
            } else {
                assert(r[j] == s[j - 1]);
                if j - 1 > 0 {
                    assert(S::view_id(s[0]) < S::view_id(s[j - 1]));
                }
            }
        }
    } else if S::view_id(v) == S::view_id(s[0]) {
        assert forall|i: int, j: int| 0 <= i < j < r.len() implies S::view_id(r[i]) < S::view_id(
            r[j],
        ) by {
            if i > 0 {
                assert(r[i] == s[i] && r[j] == s[j]);
            } else {
                assert(r[j] == s[j]);
            }
        }
    } else {
        let tail = s.skip(1);
        assert(st_sorted::<S>(tail));
        lemma_st_insert_sorted::<S>(tail, v);
        let rt = st_insert::<S>(tail, v);
        assert forall|i: int, j: int| 0 <= i < j < r.len() implies S::view_id(r[i]) < S::view_id(
            r[j],
        ) by {
            if i > 0 {
                assert(r[i] == rt[i - 1] && r[j] == rt[j - 1]);
            } else {
                assert(r[j] == rt[j - 1]);
                lemma_st_insert_membership::<S>(tail, v, j - 1);
                if rt[j - 1] == v {
                } else {
                    let w = rt[j - 1];
                    let k = choose|k: int| 0 <= k < tail.len() && tail[k] == w;
                    assert(S::view_id(s[0]) < S::view_id(tail[k]));
                }
            }
        }
    }
}

/// Every table built by inserting records into an empty table is in strict
/// id order; in particular all its ids are pairwise distinct.
pub proof fn lemma_st_from_records_sorted<S: Symbol>(rs: Seq<S::V>)
    ensures
        st_sorted::<S>(st_from_records::<S>(rs)),
    decreases rs.len(),
{
    if rs.len() > 0 {
        lemma_st_from_records_sorted::<S>(rs.drop_last());
        lemma_st_insert_sorted::<S>(st_from_records::<S>(rs.drop_last()), rs.last());
    }
}

/// Every record of a built table is one of the records inserted.
pub proof fn lemma_st_from_records_membership<S: Symbol>(rs: Seq<S::V>, k: int)
    requires
        0 <= k < st_from_records::<S>(rs).len(),
    ensures
        rs.contains(st_from_records::<S>(rs)[k]),
    decreases rs.len(),
{
    if rs.len() > 0 {
        let prev = st_from_records::<S>(rs.drop_last());
        let w = st_from_records::<S>(rs)[k];
        lemma_st_insert_membership::<S>(prev, rs.last(), k);
        if w == rs.last() {
            assert(rs[rs.len() - 1] == w);
        } else {
            let j = choose|j: int| 0 <= j < prev.len() && prev[j] == w;
            lemma_st_from_records_membership::<S>(rs.drop_last(), j);
            let i = choose|i: int| 0 <= i < rs.drop_last().len() && rs.drop_last()[i] == w;
            assert(rs[i] == w);
        }
    }
}

/// In a table with pairwise-distinct ids, every stored record is found by
/// its id.
proof fn lemma_get_by_id_finds<S: Symbol>(s: Seq<S::V>, k: int)
    requires
        st_sorted::<S>(s),
        0 <= k < s.len(),
    ensures
        st_get_by_id::<S>(s, S::view_id(s[k])) == Some(s[k]),
    decreases k,
{
    if k > 0 {
        assert(S::view_id(s[0]) < S::view_id(s[k]));
        assert(st_sorted::<S>(s.skip(1)));
        lemma_get_by_id_finds::<S>(s.skip(1), k - 1);
        assert(s.skip(1)[k - 1] == s[k]);
    }
}

/// In a table with pairwise-distinct names, every stored record is found
/// by its name.
proof fn lemma_get_by_name_finds<S: Symbol>(s: Seq<S::V>, k: int)
    requires
        forall|i: int, j: int|
            0 <= i < j < s.len() ==> S::view_name(s[i]) != S::view_name(s[j]),
        0 <= k < s.len(),
    ensures
        st_get_by_name::<S>(s, S::view_name(s[k])) == Some(s[k]),
    decreases k,
{
    if k > 0 {
        assert(S::view_name(s[0]) != S::view_name(s[k]));
        assert(forall|i: int, j: int|
            0 <= i < j < s.skip(1).len() ==> S::view_name(s.skip(1)[i]) != S::view_name(
                s.skip(1)[j],
            ));
        lemma_get_by_name_finds::<S>(s.skip(1), k - 1);
        assert(s.skip(1)[k - 1] == s[k]);
    }
}

/// Symbol uniqueness. Every table built by inserting decoded records into
/// an empty table has pairwise-distinct ids. When the decoded records also
/// carry pairwise-distinct names, the stored records' names are pairwise
/// distinct, and looking a stored record up by its name returns the same
/// record as looking it up by its id.
pub proof fn lemma_symbol_table_uniqueness<S: Symbol>(rs: Seq<S::V>)
    requires
        forall|i: int, j: int|
            0 <= i < j < rs.len() ==> S::view_name(rs[i]) != S::view_name(rs[j]),
    ensures
        st_sorted::<S>(st_from_records::<S>(rs)),
        forall|i: int, j: int|
            0 <= i < j < st_from_records::<S>(rs).len() ==> S::view_name(
                #[trigger] st_from_records::<S>(rs)[i],
            ) != S::view_name(#[trigger] st_from_records::<S>(rs)[j]),
        forall|k: int|
            0 <= k < st_from_records::<S>(rs).len() ==> st_get_by_id::<S>(
                st_from_records::<S>(rs),
                S::view_id(#[trigger] st_from_records::<S>(rs)[k]),
            ) == Some(st_from_records::<S>(rs)[k]) && st_get_by_name::<S>(
                st_from_records::<S>(rs),
                S::view_name(st_from_records::<S>(rs)[k]),
            ) == Some(st_from_records::<S>(rs)[k]),
{
    let t = st_from_records::<S>(rs);
    lemma_st_from_records_sorted::<S>(rs);
    assert forall|i: int, j: int| 0 <= i < j < t.len() implies S::view_name(#[trigger] t[i])
        != S::view_name(#[trigger] t[j]) by {
        if S::view_name(t[i]) == S::view_name(t[j]) {
            lemma_st_from_records_membership::<S>(rs, i);
            lemma_st_from_records_membership::<S>(rs, j);
            let a = choose|a: int| 0 <= a < rs.len() && rs[a] == t[i];
            let b = choose|b: int| 0 <= b < rs.len() && rs[b] == t[j];
            if a != b {
                assert(S::view_name(rs[a]) != S::view_name(rs[b]));
            } else {
                assert(t[i] == t[j]);
                assert(S::view_id(t[i]) < S::view_id(t[j]));
            }
        }
    }
    assert forall|k: int| 0 <= k < t.len() implies st_get_by_id::<S>(
        t,
        S::view_id(#[trigger] t[k]),
    ) == Some(t[k]) && st_get_by_name::<S>(t, S::view_name(t[k])) == Some(t[k]) by {
        lemma_get_by_id_finds::<S>(t, k);
        lemma_get_by_name_finds::<S>(t, k);
    }
}

/// A mapping from id to record with a secondary lookup by name. Insertion
/// order is not observable: records are kept in ascending id order.
#[derive(Debug)]
pub struct SymbolTable<S: Symbol> {
    pub symbols: Vec<S>,
}

impl<S: Symbol> View for SymbolTable<S> {
    type V = Seq<S::V>;

    open spec fn view(&self) -> Seq<S::V> {
        crate::policy::views_of(self.symbols@)
    }
}

impl<S: Symbol> SymbolTable<S> {
    /// An empty table. The capacity is a preallocation hint only.
    pub fn with_capacity(capacity: usize) -> (r: Self)
        ensures
            r@ == Seq::<S::V>::empty(),
    {
        let v: Vec<S> = Vec::with_capacity(capacity);
        let r = SymbolTable { symbols: v };
        proof {
            assert(r@ =~= Seq::<S::V>::empty());
        }
        r
    }

    pub fn len(&self) -> (n: usize)
        ensures
            n == self@.len(),
    {
        self.symbols.len()
    }

    /// The position of the first record whose id is not below `id`.
    fn find_insert_pos(&self, id: u32) -> (i: usize)
        ensures
            i <= self@.len(),
            forall|j: int| 0 <= j < i ==> S::view_id(#[trigger] self@[j]) < id,
            i < self@.len() ==> S::view_id(self@[i as int]) >= id,
    {
        let n = self.symbols.len();
        let mut i: usize = 0;
        while i < n
            invariant
                0 <= i <= n,
                n == self.symbols@.len(),
                forall|j: int| 0 <= j < i ==> S::view_id(#[trigger] self@[j]) < id,
            decreases n - i,
        {
            assert(self@[i as int] == self.symbols@[i as int]@);
            if self.symbols[i].id() >= id {
                return i;
            }
            i = i + 1;
        }
        i
    }

    /// Inserts a record, replacing any stored record with the same id.
    pub fn insert(&mut self, sym: S)
        ensures
            final(self)@ == st_insert::<S>(old(self)@, sym@),
    {
        let id = sym.id();
        let ghost s0 = self@;
        let i = self.find_insert_pos(id);
        let n = self.symbols.len();
        if i < n && self.symbols[i].id() == id {
            assert(self.symbols@[i as int]@ == s0[i as int]);
            self.symbols.set(i, sym);
            proof {
                lemma_st_insert_at::<S>(s0, sym@, i as int);
                assert(self@ =~= s0.update(i as int, sym@));
            }
        } else {
            assert(i < n ==> S::view_id(s0[i as int]) != S::view_id(sym@)) by {
                if i < n {
                    assert(self.symbols@[i as int]@ == s0[i as int]);
                }
            }
            self.symbols.insert(i, sym);
            proof {
                lemma_st_insert_at::<S>(s0, sym@, i as int);
                assert(self@ =~= s0.insert(i as int, sym@));
            }
        }
    }

    /// A borrow of all records, in ascending id order.
    pub fn all(&self) -> (r: &Vec<S>)
        ensures
            crate::policy::views_of(r@) == self@,
    {
        &self.symbols
    }

    /// The record with the given id, if any.
    pub fn get_by_id(&self, id: u32) -> (res: Option<&S>)
        ensures
            match res {
                Some(s) => st_get_by_id::<S>(self@, id) == Some(s@),
                None => st_get_by_id::<S>(self@, id) is None,
            },
    {
        let n = self.symbols.len();
        let mut i: usize = 0;
        assert(self@.skip(0) =~= self@);
        while i < n
            invariant
                0 <= i <= n,
                n == self.symbols@.len(),
                st_get_by_id::<S>(self@, id) == st_get_by_id::<S>(self@.skip(i as int), id),
            decreases n - i,
        {
            let cur = self.symbols[i].id();
            assert(self@.skip(i as int)[0] == self@[i as int]);
            assert(self@[i as int] == self.symbols@[i as int]@);
            if cur == id {
                return Some(&self.symbols[i]);
            }
            proof {
                assert(self@.skip(i as int).skip(1) =~= self@.skip(i as int + 1));
            }
            i = i + 1;
        }
        proof {
            assert(self@.skip(n as int) =~= Seq::<S::V>::empty());
        }
        None
    }

    /// The record with the given name, if any.
    pub fn get_by_name(&self, name: &Vec<u8>) -> (res: Option<&S>)
        ensures
            match res {
                Some(s) => st_get_by_name::<S>(self@, name@) == Some(s@),
                None => st_get_by_name::<S>(self@, name@) is None,
            },
    {
        let n = self.symbols.len();
        let mut i: usize = 0;
        assert(self@.skip(0) =~= self@);
        while i < n
            invariant
                0 <= i <= n,
                n == self.symbols@.len(),
                st_get_by_name::<S>(self@, name@) == st_get_by_name::<S>(
                    self@.skip(i as int),
                    name@,
                ),
            decreases n - i,
        {
            assert(self@.skip(i as int)[0] == self@[i as int]);
            assert(self@[i as int] == self.symbols@[i as int]@);
            if crate::reader::bytes_eq(self.symbols[i].name(), name) {
                return Some(&self.symbols[i]);
            }
            proof {
                assert(self@.skip(i as int).skip(1) =~= self@.skip(i as int + 1));
            }
            i = i + 1;
        }
        proof {
            assert(self@.skip(n as int) =~= Seq::<S::V>::empty());
        }
        None
    }
}

} // verus!

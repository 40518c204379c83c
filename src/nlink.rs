use std::collections::BTreeMap;
use vstd::prelude::*;

verus! {

broadcast use vstd::std_specs::btree::group_btree_axioms, vstd::laws_cmp::group_laws_cmp;

/// The link count that a table records for `id`: the stored count, or 1
/// where no entry exists (a file with no recorded extra links).
pub open spec fn nlink_of(m: Map<usize, usize>, id: usize) -> nat {
    if m.contains_key(id) {
        m[id] as nat
    } else {
        1
    }
}

/// No identifier is stored with a count of 0.
pub open spec fn counts_positive(m: Map<usize, usize>) -> bool {
    forall|k: usize| #[trigger] m.contains_key(k) ==> m[k] >= 1
}

/// The table after a second (or further) name is attached to `id`.
pub open spec fn increased(m: Map<usize, usize>, id: usize) -> Map<usize, usize> {
    if m.contains_key(id) {
        m.insert(id, (m[id] + 1) as usize)
    } else {
        m.insert(id, 2)
    }
}

/// The table after one name of `id` is removed: the count drops by one and
/// an entry that reaches 0 leaves the table.
pub open spec fn decreased(m: Map<usize, usize>, id: usize) -> Map<usize, usize> {
    if m.contains_key(id) {
        if m[id] <= 1 {
            m.remove(id)
        } else {
            m.insert(id, (m[id] - 1) as usize)
        }
    } else {
        m
    }
}

/// Process-wide mapping from inode identifier to hard-link count.
pub struct NlinkTable {
    map: BTreeMap<usize, usize>,
}

impl View for NlinkTable {
    type V = Map<usize, usize>;

    closed spec fn view(&self) -> Map<usize, usize> {
        self.map@
    }
}

impl NlinkTable {
    /// A table with no stored counts: every identifier has 1 link.
    pub fn new() -> (r: NlinkTable)
        ensures
            r@ == Map::<usize, usize>::empty(),
            r.wf(),
    {
        NlinkTable { map: BTreeMap::new() }
    }

    pub open spec fn wf(&self) -> bool {
        counts_positive(self@)
    }

    /// Whether the table stores an entry for `inode_id`.
    pub fn contains(&self, inode_id: usize) -> (r: bool)
        ensures
            r == self@.contains_key(inode_id),
    {
        self.map.contains_key(&inode_id)
    }
}

/// Records that a further name now refers to inode `inode_id`.
pub fn increase_nlink(table: &mut NlinkTable, inode_id: usize)
    requires
        old(table).wf(),
        nlink_of(old(table)@, inode_id) < usize::MAX,
    ensures
        final(table).wf(),
        final(table)@ == increased(old(table)@, inode_id),
        nlink_of(final(table)@, inode_id) == nlink_of(old(table)@, inode_id) + 1,
{
    match table.map.get(&inode_id) {
        Some(n) => {
            let next: usize = *n + 1;
            table.map.insert(inode_id, next);
        },
        None => {
            table.map.insert(inode_id, 2);
        },
    }
    assert(counts_positive(table@));
}

/// Records that one name of inode `inode_id` was removed.
pub fn decrease_nlink(table: &mut NlinkTable, inode_id: usize)
    requires
        old(table).wf(),
    ensures
        final(table).wf(),
        final(table)@ == decreased(old(table)@, inode_id),
{
    match table.map.get(&inode_id) {
        Some(n) => {
            let next: usize = *n - 1;
            if next == 0 {
                table.map.remove(&inode_id);
            } else {
                table.map.insert(inode_id, next);
            }
        },
        None => {},
    }
    assert(counts_positive(table@));
}

/// The link count of inode `inode_id`: its stored count, or 1 if absent.
pub fn get_nlink(table: &NlinkTable, inode_id: usize) -> (r: usize)
    ensures
        r as nat == nlink_of(table@, inode_id),
{
    match table.map.get(&inode_id) {
        Some(n) => *n,
        None => 1,
    }
}

/// Attaching a name to an inode and then removing one gives back the link
/// count that it had; where the table already held an entry for it, the whole
/// table is as before.
pub proof fn lemma_increase_then_decrease(m: Map<usize, usize>, id: usize)
    requires
        counts_positive(m),
        nlink_of(m, id) < usize::MAX,
    ensures
        nlink_of(decreased(increased(m, id), id), id) == nlink_of(m, id),
        m.contains_key(id) ==> decreased(increased(m, id), id) == m,
{
    let m1 = increased(m, id);
    if m.contains_key(id) {
        let m2 = m1.insert(id, m[id]);
        assert(decreased(m1, id) == m2);
        assert(m2 =~= m);
    }
}

/// Link counts of an inode with no stored entry: 1 at first, 2 after one
/// increase, 1 again after an increase and a decrease, and 1 after two
/// increases and two decreases; the entry, stored then with a count of 1,
/// leaves the table at the next decrease.
pub proof fn lemma_link_count_defaults(m: Map<usize, usize>, id: usize)
    requires
        counts_positive(m),
        !m.contains_key(id),
    ensures
        nlink_of(m, id) == 1,
        nlink_of(increased(m, id), id) == 2,
        nlink_of(decreased(increased(m, id), id), id) == 1,
        nlink_of(decreased(decreased(increased(increased(m, id), id), id), id), id) == 1,
        !decreased(decreased(decreased(increased(increased(m, id), id), id), id), id).contains_key(
            id,
        ),
{
    lemma_increase_then_decrease(m, id);
    let m1 = increased(m, id);
    let m2 = increased(m1, id);
    assert(m2[id] == 3);
    let m3 = decreased(m2, id);
    assert(m3[id] == 2);
    let m4 = decreased(m3, id);
    assert(m4[id] == 1);
}

} // verus!

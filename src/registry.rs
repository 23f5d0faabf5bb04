use vstd::prelude::*;

use crate::geometry::Size;

verus! {

/// One registered surface: the window it draws into and its current size.
#[derive(Debug)]
pub struct SurfaceEntry {
    pub id: String,
    pub size: Size,
}

/// The surfaces that can receive frames, keyed by window identifier.
///
/// Identifiers are unique; the order of the entries carries no meaning.
#[derive(Debug)]
pub struct SurfaceRegistry {
    entries: Vec<SurfaceEntry>,
}

/// Index of the entry named `id`, for a sequence whose names are unique.
pub open spec fn entry_index(entries: Seq<SurfaceEntry>, id: Seq<char>) -> int {
    choose|i: int| 0 <= i < entries.len() && (#[trigger] entries[i]).id@ == id
}

pub open spec fn names_unique(entries: Seq<SurfaceEntry>) -> bool {
    forall|i: int, j: int|
        0 <= i < entries.len() && 0 <= j < entries.len() && i != j ==> (#[trigger] entries[i]).id@
            != (#[trigger] entries[j]).id@
}

pub open spec fn entries_map(entries: Seq<SurfaceEntry>) -> Map<Seq<char>, Size> {
    Map::new(
        |k: Seq<char>| exists|i: int| 0 <= i < entries.len() && (#[trigger] entries[i]).id@ == k,
        |k: Seq<char>| entries[entry_index(entries, k)].size,
    )
}

impl View for SurfaceRegistry {
    type V = Map<Seq<char>, Size>;

    closed spec fn view(&self) -> Map<Seq<char>, Size> {
        entries_map(self.entries@)
    }
}

proof fn lemma_entry_at(entries: Seq<SurfaceEntry>, i: int)
    requires
        names_unique(entries),
        0 <= i < entries.len(),
    ensures
        entries_map(entries).contains_key(entries[i].id@),
        entries_map(entries)[entries[i].id@] == entries[i].size,
{
    let k = entries[i].id@;
    assert(entries_map(entries).dom().contains(k));
    let j = entry_index(entries, k);
    assert(entries[j].id@ == k);
}


proof fn lemma_unique_index(entries: Seq<SurfaceEntry>, i: int, k: Seq<char>)
    requires
        names_unique(entries),
        0 <= i < entries.len(),
        entries[i].id@ == k,
    ensures
        entry_index(entries, k) == i,
{
    assert(entries_map(entries).dom().contains(k));
}

proof fn lemma_set_size(old: Seq<SurfaceEntry>, new: Seq<SurfaceEntry>, i: int)
    requires
        names_unique(old),
        0 <= i < old.len(),
        new.len() == old.len(),
        new[i].id@ == old[i].id@,
        forall|j: int| 0 <= j < old.len() && j != i ==> new[j] == old[j],
    ensures
        names_unique(new),
        entries_map(new) == entries_map(old).insert(old[i].id@, new[i].size),
{
    let m_old = entries_map(old);
    let m_new = entries_map(new);
    let target = m_old.insert(old[i].id@, new[i].size);
    assert forall|a: int, b: int|
        0 <= a < new.len() && 0 <= b < new.len() && a != b implies (#[trigger] new[a]).id@
            != (#[trigger] new[b]).id@ by {
        assert(old[a].id@ == new[a].id@);
        assert(old[b].id@ == new[b].id@);
    }
    assert forall|k: Seq<char>| m_new.dom().contains(k) <==> target.dom().contains(k) by {
        if m_new.dom().contains(k) {
            let j = choose|j: int| 0 <= j < new.len() && (#[trigger] new[j]).id@ == k;
            assert(old[j].id@ == k);
        }
        if m_old.dom().contains(k) {
            let j = choose|j: int| 0 <= j < old.len() && (#[trigger] old[j]).id@ == k;
            assert(new[j].id@ == k);
        }
        if k == old[i].id@ {
            assert(new[i].id@ == k);
        }
    }
    assert forall|k: Seq<char>| #[trigger] m_new.dom().contains(k) implies m_new[k]
        == target[k] by {
        let j = choose|j: int| 0 <= j < new.len() && (#[trigger] new[j]).id@ == k;
        lemma_unique_index(new, j, k);
        if j == i {
        } else {
            assert(old[j].id@ == k);
            lemma_unique_index(old, j, k);
        }
    }
    assert(m_new =~= target);
}

proof fn lemma_push(old: Seq<SurfaceEntry>, e: SurfaceEntry)
    requires
        names_unique(old),
        !entries_map(old).contains_key(e.id@),
    ensures
        names_unique(old.push(e)),
        entries_map(old.push(e)) == entries_map(old).insert(e.id@, e.size),
{
    let new = old.push(e);
    let m_old = entries_map(old);
    let m_new = entries_map(new);
    let target = m_old.insert(e.id@, e.size);
    assert forall|a: int, b: int|
        0 <= a < new.len() && 0 <= b < new.len() && a != b implies (#[trigger] new[a]).id@
            != (#[trigger] new[b]).id@ by {
        if a == old.len() {
            assert(new[b] == old[b]);
            assert(m_old.dom().contains(old[b].id@));
        } else if b == old.len() {
            assert(new[a] == old[a]);
            assert(m_old.dom().contains(old[a].id@));
        } else {
            assert(new[a] == old[a] && new[b] == old[b]);
        }
    }
    assert forall|k: Seq<char>| m_new.dom().contains(k) <==> target.dom().contains(k) by {
        if m_new.dom().contains(k) {
            let j = choose|j: int| 0 <= j < new.len() && (#[trigger] new[j]).id@ == k;
            if j < old.len() {
                assert(old[j].id@ == k);
            }
        }
        if m_old.dom().contains(k) {
            let j = choose|j: int| 0 <= j < old.len() && (#[trigger] old[j]).id@ == k;
            assert(new[j].id@ == k);
        }
        if k == e.id@ {
            assert(new[old.len() as int].id@ == k);
        }
    }
    assert forall|k: Seq<char>| #[trigger] m_new.dom().contains(k) implies m_new[k]
        == target[k] by {
        let j = choose|j: int| 0 <= j < new.len() && (#[trigger] new[j]).id@ == k;
        lemma_unique_index(new, j, k);
        if j < old.len() {
            assert(old[j].id@ == k);
            lemma_unique_index(old, j, k);
        }
    }
    assert(m_new =~= target);
}

proof fn lemma_remove(old: Seq<SurfaceEntry>, i: int)
    requires
        names_unique(old),
        0 <= i < old.len(),
    ensures
        names_unique(old.remove(i)),
        entries_map(old.remove(i)) == entries_map(old).remove(old[i].id@),
{
    let new = old.remove(i);
    let m_old = entries_map(old);
    let m_new = entries_map(new);
    let target = m_old.remove(old[i].id@);
    assert forall|j: int| 0 <= j < new.len() implies #[trigger] new[j] == (if j < i {
        old[j]
    } else {
        old[j + 1]
    }) by {}
    assert forall|a: int, b: int|
        0 <= a < new.len() && 0 <= b < new.len() && a != b implies (#[trigger] new[a]).id@
            != (#[trigger] new[b]).id@ by {
        let oa = if a < i { a } else { a + 1 };
        let ob = if b < i { b } else { b + 1 };
        assert(new[a] == old[oa] && new[b] == old[ob]);
    }
    assert forall|k: Seq<char>| m_new.dom().contains(k) <==> target.dom().contains(k) by {
        if m_new.dom().contains(k) {
            let j = choose|j: int| 0 <= j < new.len() && (#[trigger] new[j]).id@ == k;
            let oj = if j < i { j } else { j + 1 };
            assert(old[oj].id@ == k);
        }
        if target.dom().contains(k) {
            let j = choose|j: int| 0 <= j < old.len() && (#[trigger] old[j]).id@ == k;
            let nj = if j < i { j } else { j - 1 };
            assert(new[nj].id@ == k);
        }
    }
    assert forall|k: Seq<char>| #[trigger] m_new.dom().contains(k) implies m_new[k]
        == target[k] by {
        let j = choose|j: int| 0 <= j < new.len() && (#[trigger] new[j]).id@ == k;
        lemma_unique_index(new, j, k);
        let oj = if j < i { j } else { j + 1 };
        assert(old[oj].id@ == k);
        lemma_unique_index(old, oj, k);
    }
    assert(m_new =~= target);
}

impl SurfaceRegistry {
    pub closed spec fn wf(&self) -> bool {
        names_unique(self.entries@)
    }

    /// A registry holding a single surface.
    pub fn new(id: String, size: Size) -> (r: SurfaceRegistry)
        ensures
            r.wf(),
            r@ == map![id@ => size],
    {
        let r = SurfaceRegistry { entries: vec![SurfaceEntry { id, size }] };
        proof {
            lemma_entry_at(r.entries@, 0);
            assert(r@ =~= map![r.entries@[0].id@ => size]);
        }
        r
    }

    /// Position of the entry named `id`, if any.
    fn position(&self, id: &String) -> (r: Option<usize>)
        requires
            self.wf(),
        ensures
            match r {
                Some(i) => i < self.entries.len() && self.entries@[i as int].id@ == id@,
                None => !self@.contains_key(id@),
            },
    {
        let mut i: usize = 0;
        while i < self.entries.len()
            invariant
                i <= self.entries.len(),
                forall|j: int| 0 <= j < i ==> (#[trigger] self.entries@[j]).id@ != id@,
            decreases self.entries.len() - i,
        {
            if self.entries[i].id == *id {
                return Some(i);
            }
            i += 1;
        }
        None
    }

    /// Whether a surface named `id` is registered.
    pub fn contains(&self, id: &String) -> (r: bool)
        requires
            self.wf(),
        ensures
            r == self@.contains_key(id@),
    {
        match self.position(id) {
            Some(i) => {
                proof { lemma_entry_at(self.entries@, i as int); }
                true
            },
            None => false,
        }
    }

    /// The size of the surface named `id`, if it is registered.
    pub fn get(&self, id: &String) -> (r: Option<Size>)
        requires
            self.wf(),
        ensures
            r == (if self@.contains_key(id@) { Some(self@[id@]) } else { None::<Size> }),
    {
        match self.position(id) {
            Some(i) => {
                proof { lemma_entry_at(self.entries@, i as int); }
                Some(self.entries[i].size)
            },
            None => None,
        }
    }

    /// Registers `id` at `size`, replacing the size of a surface already
    /// registered under that name.
    pub fn insert(&mut self, id: String, size: Size)
        requires
            old(self).wf(),
        ensures
            final(self).wf(),
            final(self)@ == old(self)@.insert(id@, size),
    {
        match self.position(&id) {
            Some(i) => {
                let ghost before = self.entries@;
                self.entries[i].size = size;
                proof { lemma_set_size(before, self.entries@, i as int); }
            },
            None => {
                let ghost before = self.entries@;
                self.entries.push(SurfaceEntry { id, size });
                proof { lemma_push(before, self.entries@.last()); }
            },
        }
    }

    /// Sets the size of the surface named `id` to `size`; `false` when no
    /// such surface is registered, in which case nothing changes.
    pub fn set_size(&mut self, id: &String, size: Size) -> (found: bool)
        requires
            old(self).wf(),
        ensures
            final(self).wf(),
            found == old(self)@.contains_key(id@),
            found ==> final(self)@ == old(self)@.insert(id@, size),
            !found ==> final(self)@ == old(self)@,
    {
        match self.position(id) {
            Some(i) => {
                let ghost before = self.entries@;
                proof { lemma_entry_at(before, i as int); }
                self.entries[i].size = size;
                proof { lemma_set_size(before, self.entries@, i as int); }
                true
            },
            None => false,
        }
    }

    /// Unregisters the surface named `id`; `false` when there was none.
    pub fn remove(&mut self, id: &String) -> (found: bool)
        requires
            old(self).wf(),
        ensures
            final(self).wf(),
            found == old(self)@.contains_key(id@),
            final(self)@ == old(self)@.remove(id@),
            !found ==> final(self)@ == old(self)@,
    {
        match self.position(id) {
            Some(i) => {
                let ghost before = self.entries@;
                proof { lemma_entry_at(before, i as int); }
                self.entries.remove(i);
                proof { lemma_remove(before, i as int); }
                true
            },
            None => {
                assert(self@ =~= self@.remove(id@));
                false
            },
        }
    }
}

} // verus!

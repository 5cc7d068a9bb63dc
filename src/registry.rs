use vstd::prelude::*;

use crate::foothold::{foothold_group_of, foothold_type_of, layer_group, FootHold, FootHoldType};

verus! {

/// One foothold of the map together with the collider handle that the physics
/// engine knows it by, and what is derived from its endpoints.
#[derive(Clone, Copy, Debug, PartialEq, Eq, Structural)]
pub struct FootholdEntry {
    pub handle: u64,
    pub foothold: FootHold,
    pub kind: FootHoldType,
    pub group: u32,
    pub layer_group: u32,
}

impl FootholdEntry {
    /// The derived fields agree with the foothold they were computed from.
    pub open spec fn wf(&self) -> bool {
        &&& self.kind == foothold_type_of(self.foothold.start_spec(), self.foothold.end_spec())
        &&& self.group == foothold_group_of(self.foothold.start_spec(), self.foothold.end_spec())
        &&& self.layer_group == layer_group(self.foothold.layer as int)
    }

    /// Classifies `foothold` once, for the collider known by `handle`.
    pub fn new(handle: u64, foothold: FootHold) -> (r: FootholdEntry)
        ensures
            r.wf(),
            r.handle == handle,
            r.foothold == foothold,
    {
        let a = foothold.start();
        let b = foothold.end();
        FootholdEntry {
            handle,
            foothold,
            kind: FootHold::get_foothold_type(a, b),
            group: FootHold::get_foothold_group(a, b),
            layer_group: FootHold::get_foothold_layer(foothold.layer),
        }
    }
}

/// The index of the first of the first `n` entries registered under `handle`.
pub open spec fn first_index(entries: Seq<FootholdEntry>, handle: u64, n: nat) -> Option<int>
    decreases n,
{
    if n == 0 {
        None
    } else {
        match first_index(entries, handle, (n - 1) as nat) {
            Some(i) => Some(i),
            None => if entries[n - 1].handle == handle {
                Some(n - 1)
            } else {
                None
            },
        }
    }
}

/// The index of the first entry registered under `handle`, if any.
pub open spec fn handle_index(entries: Seq<FootholdEntry>, handle: u64) -> Option<int> {
    first_index(entries, handle, entries.len())
}

/// Among the touched colliders, the index of the foothold of the last one
/// that is a registered foothold: later touches overwrite earlier ones.
pub open spec fn last_touched(entries: Seq<FootholdEntry>, touched: Seq<u64>) -> Option<int>
    decreases touched.len(),
{
    if touched.len() == 0 {
        None
    } else {
        match handle_index(entries, touched.last()) {
            Some(i) => Some(i),
            None => last_touched(entries, touched.drop_last()),
        }
    }
}

/// The foothold entry that a list of touched colliders resolves to.
pub open spec fn touched_entry(entries: Seq<FootholdEntry>, touched: Seq<u64>) -> Option<
    FootholdEntry,
> {
    match last_touched(entries, touched) {
        Some(i) => Some(entries[i]),
        None => None,
    }
}

proof fn lemma_first_index_bounds(entries: Seq<FootholdEntry>, handle: u64, n: nat)
    requires
        n <= entries.len(),
    ensures
        first_index(entries, handle, n) matches Some(i) ==> 0 <= i < n && entries[i].handle
            == handle,
    decreases n,
{
    if n > 0 {
        lemma_first_index_bounds(entries, handle, (n - 1) as nat);
    }
}

proof fn lemma_first_index_stable(entries: Seq<FootholdEntry>, handle: u64, m: nat, n: nat)
    requires
        m <= n,
        first_index(entries, handle, m) is Some,
    ensures
        first_index(entries, handle, n) == first_index(entries, handle, m),
    decreases n - m,
{
    if m < n {
        lemma_first_index_stable(entries, handle, m, (n - 1) as nat);
    }
}

proof fn lemma_last_touched_bounds(entries: Seq<FootholdEntry>, touched: Seq<u64>)
    ensures
        last_touched(entries, touched) matches Some(i) ==> 0 <= i < entries.len(),
    decreases touched.len(),
{
    if touched.len() > 0 {
        lemma_first_index_bounds(entries, touched.last(), entries.len());
        lemma_last_touched_bounds(entries, touched.drop_last());
    }
}

/// The footholds of a map, each under the handle of its collider. Built once
/// when the map is loaded and only read afterwards.
pub struct FootHoldRegistry {
    entries: Vec<FootholdEntry>,
}

impl View for FootHoldRegistry {
    type V = Seq<FootholdEntry>;

    closed spec fn view(&self) -> Seq<FootholdEntry> {
        self.entries@
    }
}

impl FootHoldRegistry {
    /// Every entry's derived fields agree with its foothold.
    pub open spec fn wf(&self) -> bool {
        forall|i: int| 0 <= i < self@.len() ==> #[trigger] self@[i].wf()
    }

    /// Registers each foothold under the handle paired with it, in order,
    /// classifying each one once.
    pub fn load(segments: &Vec<(u64, FootHold)>) -> (r: FootHoldRegistry)
        ensures
            r.wf(),
            r@.len() == segments@.len(),
            forall|i: int|
                0 <= i < segments@.len() ==> (#[trigger] r@[i]).handle == segments@[i].0
                    && r@[i].foothold == segments@[i].1,
    {
        let mut entries: Vec<FootholdEntry> = Vec::new();
        let mut k: usize = 0;
        while k < segments.len()
            invariant
                k <= segments@.len(),
                entries@.len() == k,
                forall|i: int| 0 <= i < k ==> (#[trigger] entries@[i]).wf(),
                forall|i: int|
                    0 <= i < k ==> (#[trigger] entries@[i]).handle == segments@[i].0
                        && entries@[i].foothold == segments@[i].1,
            decreases segments@.len() - k,
        {
            let (handle, foothold) = segments[k];
            entries.push(FootholdEntry::new(handle, foothold));
            k = k + 1;
        }
        FootHoldRegistry { entries }
    }

    /// The number of registered footholds.
    pub fn len(&self) -> (r: usize)
        ensures
            r == self@.len(),
    {
        self.entries.len()
    }

    /// The entry at position `i` in load order.
    pub fn get(&self, i: usize) -> (r: FootholdEntry)
        requires
            i < self@.len(),
        ensures
            r == self@[i as int],
    {
        self.entries[i]
    }

    /// The position of the first foothold registered under `handle`.
    pub fn find(&self, handle: u64) -> (r: Option<usize>)
        ensures
            r matches Some(i) ==> handle_index(self@, handle) == Some(i as int),
            r is None ==> handle_index(self@, handle) is None,
    {
        let mut k: usize = 0;
        while k < self.entries.len()
            invariant
                k <= self@.len(),
                self@ == self.entries@,
                first_index(self@, handle, k as nat) is None,
            decreases self@.len() - k,
        {
            if self.entries[k].handle == handle {
                proof {
                    lemma_first_index_stable(self@, handle, k as nat + 1, self@.len());
                }
                return Some(k);
            }
            k = k + 1;
        }
        None
    }

    /// The foothold that a tick's touched colliders resolve to: the last
    /// touched collider that is a registered foothold. Colliders that are not
    /// footholds are passed over.
    pub fn query_containing(&self, touched: &Vec<u64>) -> (r: Option<FootholdEntry>)
        requires
            self.wf(),
        ensures
            r == touched_entry(self@, touched@),
            r matches Some(e) ==> e.wf(),
    {
        let mut found: Option<FootholdEntry> = None;
        let mut k: usize = 0;
        while k < touched.len()
            invariant
                k <= touched@.len(),
                self.wf(),
                found == touched_entry(self@, touched@.take(k as int)),
                found matches Some(e) ==> e.wf(),
            decreases touched@.len() - k,
        {
            let ghost prefix = touched@.take(k as int + 1);
            assert(prefix.drop_last() =~= touched@.take(k as int));
            assert(prefix.last() == touched@[k as int]);
            match self.find(touched[k]) {
                Some(i) => {
                    proof {
                        lemma_first_index_bounds(self@, touched@[k as int], self@.len());
                    }
                    found = Some(self.entries[i]);
                },
                None => {},
            }
            k = k + 1;
        }
        assert(touched@.take(touched@.len() as int) =~= touched@);
        proof {
            lemma_last_touched_bounds(self@, touched@);
        }
        found
    }
}

} // verus!

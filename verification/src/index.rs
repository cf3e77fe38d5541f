//! The index from job id to job record.

use crate::models::ProcessingStatus;
use crate::record::{ProcessingRecord, RecordView};
use crate::text::same_text;
use vstd::prelude::*;

verus! {

broadcast use vstd::set::group_set_axioms, vstd::map::group_map_axioms;

/// One job id with its record.
#[derive(Debug)]
struct Entry {
    id: String,
    record: ProcessingRecord,
}

/// Whether some entry of the list carries `id`.
spec fn has_id(entries: Seq<Entry>, id: Seq<char>) -> bool {
    exists|k: int| 0 <= k < entries.len() && (#[trigger] entries[k]).id@ == id
}

/// A place in the list where `id` stands, if it stands anywhere.
spec fn place_of(entries: Seq<Entry>, id: Seq<char>) -> int {
    choose|k: int| 0 <= k < entries.len() && (#[trigger] entries[k]).id@ == id
}

/// No id stands in the list twice.
spec fn distinct_ids(entries: Seq<Entry>) -> bool {
    forall|j: int, k: int|
        0 <= j < entries.len() && 0 <= k < entries.len() && j != k ==> (#[trigger] entries[j]).id@
            != (#[trigger] entries[k]).id@
}

/// The list read as a map from id to record.
spec fn as_map(entries: Seq<Entry>) -> Map<Seq<char>, RecordView> {
    Map::new(
        |id: Seq<char>| has_id(entries, id),
        |id: Seq<char>| entries[place_of(entries, id)].record@,
    )
}

/// In a list without repeated ids, the map holds each entry under its id.
proof fn lemma_entry_in_map(entries: Seq<Entry>, k: int)
    requires
        distinct_ids(entries),
        0 <= k < entries.len(),
    ensures
        as_map(entries).dom().contains(entries[k].id@),
        as_map(entries)[entries[k].id@] == entries[k].record@,
{
    let id = entries[k].id@;
    assert(has_id(entries, id));
    let p = place_of(entries, id);
    assert(p == k);
}

/// Appending an entry with a new id inserts it into the map.
proof fn lemma_push(entries: Seq<Entry>, entry: Entry)
    requires
        distinct_ids(entries),
        !has_id(entries, entry.id@),
    ensures
        distinct_ids(entries.push(entry)),
        as_map(entries.push(entry)) == as_map(entries).insert(entry.id@, entry.record@),
{
    let after = entries.push(entry);
    assert(distinct_ids(after)) by {
        assert forall|j: int, k: int|
            0 <= j < after.len() && 0 <= k < after.len() && j != k implies (#[trigger] after[j]).id@
            != (#[trigger] after[k]).id@ by {
            if j < entries.len() && k < entries.len() {
                assert(after[j] == entries[j] && after[k] == entries[k]);
            } else if j < entries.len() {
                assert(after[j] == entries[j]);
            } else {
                assert(after[k] == entries[k]);
            }
        }
    }
    let lhs = as_map(after);
    let rhs = as_map(entries).insert(entry.id@, entry.record@);
    assert forall|id: Seq<char>| lhs.dom().contains(id) <==> rhs.dom().contains(id) by {
        if has_id(after, id) {
            let k = place_of(after, id);
            if k < entries.len() {
                assert(entries[k].id@ == id);
            }
        }
        if has_id(entries, id) {
            let k = place_of(entries, id);
            assert(after[k].id@ == id);
        }
        if id == entry.id@ {
            assert(after[entries.len() as int].id@ == id);
        }
    }
    assert forall|id: Seq<char>| lhs.dom().contains(id) implies lhs[id] == rhs[id] by {
        let k = place_of(after, id);
        lemma_entry_in_map(after, k);
        if k < entries.len() {
            assert(after[k] == entries[k]);
            lemma_entry_in_map(entries, k);
        }
    }
    assert(lhs =~= rhs);
}

/// Taking an entry out of a list without repeated ids removes its id from
/// the map.
proof fn lemma_remove(entries: Seq<Entry>, at: int)
    requires
        distinct_ids(entries),
        0 <= at < entries.len(),
    ensures
        distinct_ids(entries.remove(at)),
        !has_id(entries.remove(at), entries[at].id@),
        as_map(entries.remove(at)) == as_map(entries).remove(entries[at].id@),
{
    let after = entries.remove(at);
    assert forall|k: int| 0 <= k < after.len() implies #[trigger] after[k] == entries[if k < at {
        k
    } else {
        k + 1
    }] by {}
    assert(distinct_ids(after)) by {
        assert forall|j: int, k: int|
            0 <= j < after.len() && 0 <= k < after.len() && j != k implies (#[trigger] after[j]).id@
            != (#[trigger] after[k]).id@ by {
            let jj = if j < at { j } else { j + 1 };
            let kk = if k < at { k } else { k + 1 };
            assert(after[j] == entries[jj] && after[k] == entries[kk]);
        }
    }
    assert(!has_id(after, entries[at].id@)) by {
        if has_id(after, entries[at].id@) {
            let k = place_of(after, entries[at].id@);
            let kk = if k < at { k } else { k + 1 };
            assert(after[k] == entries[kk]);
        }
    }
    let lhs = as_map(after);
    let rhs = as_map(entries).remove(entries[at].id@);
    assert forall|id: Seq<char>| lhs.dom().contains(id) <==> rhs.dom().contains(id) by {
        if has_id(after, id) {
            let k = place_of(after, id);
            let kk = if k < at { k } else { k + 1 };
            assert(after[k] == entries[kk]);
            assert(entries[kk].id@ == id);
        }
        if has_id(entries, id) && id != entries[at].id@ {
            let k = place_of(entries, id);
            let kk = if k < at { k } else { k - 1 };
            assert(after[kk] == entries[k]);
            assert(after[kk].id@ == id);
        }
    }
    assert forall|id: Seq<char>| lhs.dom().contains(id) implies lhs[id] == rhs[id] by {
        let k = place_of(after, id);
        let kk = if k < at { k } else { k + 1 };
        assert(after[k] == entries[kk]);
        lemma_entry_in_map(after, k);
        lemma_entry_in_map(entries, kk);
    }
    assert(lhs =~= rhs);
}

/// The ids whose record carries `status`.
pub open spec fn ids_with(records: Map<Seq<char>, RecordView>, status: ProcessingStatus) -> Set<
    Seq<char>,
> {
    Set::new(|id: Seq<char>| records.dom().contains(id) && records[id].status == status)
}

/// The records that are still within `retention` at `now`.
pub open spec fn unexpired(records: Map<Seq<char>, RecordView>, now: u64, retention: u64) -> Map<
    Seq<char>,
    RecordView,
> {
    Map::new(
        |id: Seq<char>| records.dom().contains(id) && !records[id].is_expired(now, retention),
        |id: Seq<char>| records[id],
    )
}

/// How many entries of the list carry `status`.
spec fn tally(entries: Seq<Entry>, status: ProcessingStatus) -> nat
    decreases entries.len(),
{
    if entries.len() == 0 {
        0
    } else {
        tally(entries.drop_last(), status) + if entries.last().record.status == status {
            1nat
        } else {
            0nat
        }
    }
}

/// In a list without repeated ids, the map has as many ids as the list has
/// entries, and as many ids under each status as the list has entries with
/// that status.
proof fn lemma_tally(entries: Seq<Entry>, status: ProcessingStatus)
    requires
        distinct_ids(entries),
    ensures
        as_map(entries).dom().finite(),
        as_map(entries).dom().len() == entries.len(),
        ids_with(as_map(entries), status).finite(),
        ids_with(as_map(entries), status).len() == tally(entries, status),
    decreases entries.len(),
{
    if entries.len() == 0 {
        assert(as_map(entries).dom() =~= Set::<Seq<char>>::empty());
        assert(ids_with(as_map(entries), status) =~= Set::<Seq<char>>::empty());
    } else {
        let head = entries.drop_last();
        let last = entries.last();
        assert(distinct_ids(head)) by {
            assert forall|j: int, k: int|
                0 <= j < head.len() && 0 <= k < head.len() && j != k implies (
                #[trigger] head[j]).id@ != (#[trigger] head[k]).id@ by {
                assert(head[j] == entries[j] && head[k] == entries[k]);
            }
        }
        assert(!has_id(head, last.id@)) by {
            if has_id(head, last.id@) {
                let k = place_of(head, last.id@);
                assert(head[k] == entries[k]);
                assert(entries[entries.len() - 1] == last);
            }
        }
        lemma_tally(head, status);
        lemma_push(head, last);
        assert(head.push(last) =~= entries);
        let before = as_map(head);
        let after = as_map(entries);
        assert(after.dom() =~= before.dom().insert(last.id@));
        if last.record.status == status {
            assert(ids_with(after, status) =~= ids_with(before, status).insert(last.id@));
        } else {
            assert(ids_with(after, status) =~= ids_with(before, status));
        }
    }
}

/// The records of all jobs that the service tracks, each under its id.
#[derive(Debug)]
pub struct RecordIndex {
    entries: Vec<Entry>,
}

impl View for RecordIndex {
    type V = Map<Seq<char>, RecordView>;

    closed spec fn view(&self) -> Map<Seq<char>, RecordView> {
        as_map(self.entries@)
    }
}

impl RecordIndex {
    /// No id is held twice.
    pub closed spec fn wf(&self) -> bool {
        distinct_ids(self.entries@)
    }

    /// An index without records.
    pub fn new() -> (res: Self)
        ensures
            res.wf(),
            res@ == Map::<Seq<char>, RecordView>::empty(),
    {
        let res = RecordIndex { entries: Vec::new() };
        proof {
            assert(res@ =~= Map::<Seq<char>, RecordView>::empty());
        }
        res
    }

    /// The number of records.
    pub fn len(&self) -> (n: usize)
        requires
            self.wf(),
        ensures
            self@.dom().finite(),
            n == self@.dom().len(),
    {
        proof {
            lemma_tally(self.entries@, ProcessingStatus::Accepted);
        }
        self.entries.len()
    }

    fn position(&self, id: &str) -> (res: Option<usize>)
        ensures
            match res {
                Some(at) => at < self.entries@.len() && self.entries@[at as int].id@ == id@,
                None => !has_id(self.entries@, id@),
            },
    {
        let mut i: usize = 0;
        while i < self.entries.len()
            invariant
                i <= self.entries@.len(),
                forall|k: int| 0 <= k < i ==> (#[trigger] self.entries@[k]).id@ != id@,
            decreases self.entries@.len() - i,
        {
            if same_text(self.entries[i].id.as_str(), id) {
                return Some(i);
            }
            i += 1;
        }
        None
    }

    /// The record under `id`, if there is one.
    pub fn get(&self, id: &str) -> (res: Option<&ProcessingRecord>)
        requires
            self.wf(),
        ensures
            match res {
                Some(record) => self@.dom().contains(id@) && self@[id@] == record@,
                None => !self@.dom().contains(id@),
            },
    {
        match self.position(id) {
            Some(at) => {
                proof {
                    lemma_entry_in_map(self.entries@, at as int);
                }
                Some(&self.entries[at].record)
            },
            None => None,
        }
    }

    /// Puts `record` under `id`, which must be new to the index.
    pub fn insert(&mut self, id: String, record: ProcessingRecord)
        requires
            old(self).wf(),
            !old(self)@.dom().contains(id@),
        ensures
            final(self).wf(),
            final(self)@ == old(self)@.insert(id@, record@),
    {
        let entry = Entry { id, record };
        proof {
            lemma_push(self.entries@, entry);
        }
        self.entries.push(entry);
    }

    /// Takes the record under `id` out of the index, if there is one.
    pub fn take(&mut self, id: &str) -> (res: Option<ProcessingRecord>)
        requires
            old(self).wf(),
        ensures
            final(self).wf(),
            match res {
                Some(record) => {
                    &&& old(self)@.dom().contains(id@)
                    &&& old(self)@[id@] == record@
                    &&& final(self)@ == old(self)@.remove(id@)
                },
                None => !old(self)@.dom().contains(id@) && final(self)@ == old(self)@,
            },
    {
        match self.position(id) {
            Some(at) => {
                proof {
                    lemma_entry_in_map(self.entries@, at as int);
                    lemma_remove(self.entries@, at as int);
                }
                let entry = self.entries.remove(at);
                Some(entry.record)
            },
            None => None,
        }
    }

    /// Removes every record that at `now` is older than `retention`, and
    /// says how many it removed.
    pub fn retain_unexpired(&mut self, now: u64, retention: u64) -> (removed: usize)
        requires
            old(self).wf(),
        ensures
            final(self).wf(),
            final(self)@ == unexpired(old(self)@, now, retention),
            old(self)@.dom().finite(),
            final(self)@.dom().finite(),
            removed == old(self)@.dom().len() - final(self)@.dom().len(),
    {
        let ghost before = self@;
        let ghost count = self.entries@.len();
        proof {
            lemma_tally(self.entries@, ProcessingStatus::Accepted);
        }
        let mut i: usize = self.entries.len();
        let mut removed: usize = 0;
        while i > 0
            invariant
                self.wf(),
                i <= self.entries@.len(),
                removed + self.entries@.len() == count,
                count <= usize::MAX,
                forall|k: int|
                    i <= k < self.entries@.len() ==> !(
                    #[trigger] self.entries@[k]).record@.is_expired(now, retention),
                forall|id: Seq<char>| #[trigger]
                    self@.dom().contains(id) ==> before.dom().contains(id) && self@[id]
                        == before[id],
                forall|id: Seq<char>|
                    before.dom().contains(id) && !before[id].is_expired(now, retention)
                        ==> #[trigger] self@.dom().contains(id),
            decreases i,
        {
            i -= 1;
            if self.entries[i].record.is_expired(now, retention) {
                proof {
                    lemma_entry_in_map(self.entries@, i as int);
                    lemma_remove(self.entries@, i as int);
                }
                let ghost prior = self.entries@;
                let ghost prior_map = self@;
                self.entries.remove(i);
                removed += 1;
                proof {
                    assert(self@ == prior_map.remove(prior[i as int].id@));
                    assert forall|id: Seq<char>| #[trigger]
                        self@.dom().contains(id) implies before.dom().contains(id) && self@[id]
                        == before[id] by {
                        assert(prior_map.dom().contains(id));
                    }
                    assert forall|id: Seq<char>|
                        before.dom().contains(id) && !before[id].is_expired(
                            now,
                            retention,
                        ) implies #[trigger] self@.dom().contains(id) by {
                        assert(prior_map.dom().contains(id));
                    }
                    assert forall|k: int| i <= k < self.entries@.len() implies !(
                    #[trigger] self.entries@[k]).record@.is_expired(now, retention) by {
                        assert(self.entries@[k] == prior[k + 1]);
                    }
                }
            }
        }
        proof {
            lemma_tally(self.entries@, ProcessingStatus::Accepted);
            let target = unexpired(before, now, retention);
            assert forall|id: Seq<char>| self@.dom().contains(id) implies target.dom().contains(
                id,
            ) by {
                let k = place_of(self.entries@, id);
                lemma_entry_in_map(self.entries@, k);
            }
            assert(self@ =~= target);
        }
        removed
    }

    /// The number of records that carry `status`.
    pub fn count(&self, status: ProcessingStatus) -> (n: usize)
        requires
            self.wf(),
        ensures
            ids_with(self@, status).finite(),
            n == ids_with(self@, status).len(),
    {
        let mut n: usize = 0;
        let mut i: usize = 0;
        while i < self.entries.len()
            invariant
                i <= self.entries@.len(),
                n <= i,
                n == tally(self.entries@.subrange(0, i as int), status),
            decreases self.entries@.len() - i,
        {
            proof {
                let upto = self.entries@.subrange(0, i + 1);
                assert(upto.drop_last() =~= self.entries@.subrange(0, i as int));
                assert(upto.last() == self.entries@[i as int]);
            }
            if self.entries[i].record.status == status {
                n += 1;
            }
            i += 1;
        }
        proof {
            assert(self.entries@.subrange(0, i as int) =~= self.entries@);
            lemma_tally(self.entries@, status);
        }
        n
    }
}

} // verus!

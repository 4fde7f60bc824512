//! The share store: for each block height, the shares credited to each
//! worker, and the coinbase records of the blocks that the pool found.
use vstd::prelude::*;
use crate::address::WorkerAddress;
use crate::assoc::AssocMap;
use crate::block::{records_view, CoinbaseRecord, RecordView};
use crate::error::PoolError;

verus! {

/// The shares of each worker at each height.
pub type ShareTable = Map<u32, Map<WorkerAddress, u64>>;

/// The coinbase records kept at each height, in the order of their arrival.
pub type Archive = Map<u32, Seq<RecordView>>;

/// The shares of `worker` at `block_height`; none where there is no row.
pub open spec fn share_count(table: ShareTable, block_height: u32, worker: WorkerAddress) -> u64 {
    if table.contains_key(block_height) && table[block_height].contains_key(worker) {
        table[block_height][worker]
    } else {
        0
    }
}

/// The tallies at `block_height`; empty where there is no row.
pub open spec fn tallies_at(table: ShareTable, block_height: u32) -> Map<WorkerAddress, u64> {
    if table.contains_key(block_height) {
        table[block_height]
    } else {
        Map::empty()
    }
}

/// Whether `shares` more shares of `worker` at `block_height` no longer fit
/// the counter.
pub open spec fn credit_overflows(
    table: ShareTable,
    block_height: u32,
    worker: WorkerAddress,
    shares: u64,
) -> bool {
    share_count(table, block_height, worker) + shares > u64::MAX
}

/// The table after `shares` more shares of `worker` at `block_height`.
pub open spec fn credited(
    table: ShareTable,
    block_height: u32,
    worker: WorkerAddress,
    shares: u64,
) -> ShareTable {
    table.insert(
        block_height,
        tallies_at(table, block_height).insert(
            worker,
            (share_count(table, block_height, worker) + shares) as u64,
        ),
    )
}

/// The records kept at `block_height`; none where there is no row.
pub open spec fn records_at(archive: Archive, block_height: u32) -> Seq<RecordView> {
    if archive.contains_key(block_height) {
        archive[block_height]
    } else {
        Seq::empty()
    }
}

/// The archive after `records` were appended at `block_height`, one by one.
/// Without a record nothing changes.
pub open spec fn archived(archive: Archive, block_height: u32, records: Seq<RecordView>) -> Archive {
    if records.len() == 0 {
        archive
    } else {
        archive.insert(block_height, records_at(archive, block_height) + records)
    }
}

/// The rows that [`ShareStore::to_shares`] hands out list `table`: each
/// height once, with its tallies, and no other height.
pub open spec fn lists(rows: Seq<(u32, AssocMap<WorkerAddress, u64>)>, table: ShareTable) -> bool {
    &&& forall|i: int|
        0 <= i < rows.len() ==> {
            &&& (#[trigger] rows[i]).1.wf()
            &&& table.contains_key(rows[i].0)
            &&& rows[i].1@ == table[rows[i].0]
        }
    &&& forall|i: int, j: int|
        0 <= i < rows.len() && 0 <= j < rows.len() && i != j ==> (#[trigger] rows[i]).0 != (
        #[trigger] rows[j]).0
    &&& forall|h: u32| #[trigger]
        table.contains_key(h) ==> exists|i: int| 0 <= i < rows.len() && (#[trigger] rows[i]).0 == h
}

/// Tally of shares by block height and worker, and archive of coinbase
/// records by block height.
pub struct ShareStore {
    shares: AssocMap<u32, AssocMap<WorkerAddress, u64>>,
    coinbase: AssocMap<u32, Vec<CoinbaseRecord>>,
}

impl ShareStore {
    /// No height has two rows and, within a row, no worker has two tallies.
    pub closed spec fn wf(&self) -> bool {
        &&& self.shares.wf()
        &&& self.coinbase.wf()
        &&& forall|i: int| 0 <= i < self.shares.values@.len() ==> (#[trigger] self.shares.values@[i]).wf()
    }

    /// The shares that the store holds.
    pub closed spec fn shares(&self) -> ShareTable {
        Map::new(|h: u32| self.shares@.contains_key(h), |h: u32| self.shares@[h]@)
    }

    /// The coinbase records that the store holds.
    pub closed spec fn archive(&self) -> Archive {
        Map::new(|h: u32| self.coinbase@.contains_key(h), |h: u32| records_view(self.coinbase@[h]@))
    }

    proof fn lemma_rows_wf(&self, h: u32)
        requires
            self.wf(),
            self.shares@.contains_key(h),
        ensures
            self.shares@[h].wf(),
    {
        let i = self.shares.keys@.index_of(h);
        self.shares.lemma_position(i);
    }

    /// An empty store.
    pub fn new() -> (store: Self)
        ensures
            store.wf(),
            store.shares() == ShareTable::empty(),
            store.archive() == Archive::empty(),
    {
        let store = ShareStore { shares: AssocMap::new(), coinbase: AssocMap::new() };
        proof {
            assert(store.shares() =~= ShareTable::empty());
            assert(store.archive() =~= Archive::empty());
        }
        store
    }

    /// The shares of `worker` at `block_height`.
    pub fn shares_of(&self, block_height: u32, worker: &WorkerAddress) -> (count: u64)
        requires
            self.wf(),
        ensures
            count == share_count(self.shares(), block_height, *worker),
    {
        match self.shares.get(&block_height) {
            Some(row) => {
                proof {
                    self.lemma_rows_wf(block_height);
                }
                match row.get(worker) {
                    Some(count) => *count,
                    None => 0,
                }
            },
            None => 0,
        }
    }

    /// Credits `shares` more shares to `worker` at `block_height`, with a new
    /// row where there was none. Where the counter cannot hold the sum the
    /// store stays as it was and the credit fails with `StorageFault`.
    pub fn add_shares(&mut self, block_height: u32, worker: &WorkerAddress, shares: u64) -> (r:
        Result<(), PoolError>)
        requires
            old(self).wf(),
        ensures
            final(self).wf(),
            final(self).archive() == old(self).archive(),
            match r {
                Ok(_) => !credit_overflows(old(self).shares(), block_height, *worker, shares)
                    && final(self).shares() == credited(
                    old(self).shares(),
                    block_height,
                    *worker,
                    shares,
                ),
                Err(e) => e == PoolError::StorageFault && credit_overflows(
                    old(self).shares(),
                    block_height,
                    *worker,
                    shares,
                ) && final(self).shares() == old(self).shares(),
            },
    {
        let count = self.shares_of(block_height, worker);
        if shares > u64::MAX - count {
            return Err(PoolError::StorageFault);
        }
        proof {
            if self.shares@.contains_key(block_height) {
                self.lemma_rows_wf(block_height);
            }
        }
        let mut row = match self.shares.remove(&block_height) {
            Some(row) => row,
            None => AssocMap::new(),
        };
        assert(row.wf());
        assert(row@ == tallies_at(old(self).shares(), block_height));
        row.insert(*worker, count + shares);
        proof {
            assert forall|i: int| 0 <= i < self.shares.values@.len() implies (
            #[trigger] self.shares.values@[i]).wf() by {
                self.shares.lemma_position(i);
                let k = self.shares.keys@[i];
                assert(old(self).shares@.contains_key(k));
                old(self).lemma_rows_wf(k);
            }
        }
        let ghost mid = self.shares;
        self.shares.insert(block_height, row);
        proof {
            assert forall|i: int| 0 <= i < self.shares.values@.len() implies (
            #[trigger] self.shares.values@[i]).wf() by {
                self.shares.lemma_position(i);
                let k = self.shares.keys@[i];
                if k != block_height {
                    assert(mid@.contains_key(k));
                    let j = mid.keys@.index_of(k);
                    mid.lemma_position(j);
                }
            }
            assert(self.shares() =~= credited(old(self).shares(), block_height, *worker, shares));
        }
        Ok(())
    }

    /// Appends `record` to the coinbase records kept at `block_height`.
    pub fn add_coinbase_record(&mut self, block_height: u32, record: CoinbaseRecord)
        requires
            old(self).wf(),
        ensures
            final(self).wf(),
            final(self).shares() == old(self).shares(),
            final(self).archive() == archived(old(self).archive(), block_height, seq![record@]),
    {
        let mut row = match self.coinbase.remove(&block_height) {
            Some(row) => row,
            None => Vec::new(),
        };
        let ghost before = row@;
        assert(records_view(before) =~= records_at(old(self).archive(), block_height));
        row.push(record);
        proof {
            assert(records_view(row@) =~= records_view(before) + seq![record@]);
        }
        self.coinbase.insert(block_height, row);
        proof {
            assert(self.archive() =~= archived(old(self).archive(), block_height, seq![record@]));
        }
    }

    /// Copies of the coinbase records kept at `block_height`.
    pub fn coinbase_records(&self, block_height: u32) -> (records: Vec<CoinbaseRecord>)
        requires
            self.wf(),
        ensures
            records_view(records@) == records_at(self.archive(), block_height),
    {
        match self.coinbase.get(&block_height) {
            Some(row) => crate::block::duplicate_records(row),
            None => {
                let records: Vec<CoinbaseRecord> = Vec::new();
                proof {
                    assert(records_view(records@) =~= Seq::<RecordView>::empty());
                }
                records
            },
        }
    }

    /// Deletes the shares at `block_height`. The coinbase records stay.
    pub fn remove_shares(&mut self, block_height: u32)
        requires
            old(self).wf(),
        ensures
            final(self).wf(),
            final(self).shares() == old(self).shares().remove(block_height),
            final(self).archive() == old(self).archive(),
    {
        self.shares.remove(&block_height);
        proof {
            assert forall|i: int| 0 <= i < self.shares.values@.len() implies (
            #[trigger] self.shares.values@[i]).wf() by {
                self.shares.lemma_position(i);
                let k = self.shares.keys@[i];
                assert(old(self).shares@.contains_key(k));
                old(self).lemma_rows_wf(k);
            }
            assert(self.shares() =~= old(self).shares().remove(block_height));
        }
    }

    /// All the shares in the store: one row for each height that has shares,
    /// in no particular order.
    pub fn to_shares(&self) -> (rows: Vec<(u32, AssocMap<WorkerAddress, u64>)>)
        requires
            self.wf(),
        ensures
            lists(rows@, self.shares()),
    {
        let mut rows: Vec<(u32, AssocMap<WorkerAddress, u64>)> = Vec::new();
        let mut i: usize = 0;
        while i < self.shares.keys.len()
            invariant
                self.wf(),
                i <= self.shares.keys@.len(),
                rows@.len() == i,
                forall|j: int|
                    0 <= j < i ==> {
                        &&& (#[trigger] rows@[j]).0 == self.shares.keys@[j]
                        &&& rows@[j].1.wf()
                        &&& rows@[j].1@ == self.shares.values@[j]@
                    },
            decreases self.shares.keys@.len() - i,
        {
            let row = self.shares.values[i].duplicate();
            rows.push((self.shares.keys[i], row));
            i += 1;
        }
        proof {
            let table = self.shares();
            assert forall|j: int| 0 <= j < rows@.len() implies {
                &&& (#[trigger] rows@[j]).1.wf()
                &&& table.contains_key(rows@[j].0)
                &&& rows@[j].1@ == table[rows@[j].0]
            } by {
                self.shares.lemma_position(j);
            }
            assert forall|h: u32| #[trigger] table.contains_key(h) implies exists|j: int|
                0 <= j < rows@.len() && (#[trigger] rows@[j]).0 == h by {
                let j = self.shares.keys@.index_of(h);
                assert(rows@[j].0 == h);
            }
        }
        rows
    }
}

} // verus!

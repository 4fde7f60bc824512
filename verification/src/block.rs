//! What the validator reads of a block that a worker proposes.
use vstd::prelude::*;
use crate::address::WorkerAddress;
use crate::template::copy_bytes;

verus! {

/// A record that a coinbase transaction outputs: its owner, and the record
/// itself in its encoded form.
#[derive(Clone, Debug)]
pub struct CoinbaseRecord {
    pub owner: WorkerAddress,
    pub payload: Vec<u8>,
}

/// Mathematical value of a [`CoinbaseRecord`].
pub struct RecordView {
    pub owner: WorkerAddress,
    pub payload: Seq<u8>,
}

impl View for CoinbaseRecord {
    type V = RecordView;

    open spec fn view(&self) -> RecordView {
        RecordView { owner: self.owner, payload: self.payload@ }
    }
}

impl CoinbaseRecord {
    pub fn duplicate(&self) -> (copy: CoinbaseRecord)
        ensures
            copy@ == self@,
    {
        CoinbaseRecord { owner: self.owner, payload: copy_bytes(&self.payload) }
    }
}

/// The values of a sequence of records.
pub open spec fn records_view(records: Seq<CoinbaseRecord>) -> Seq<RecordView> {
    records.map_values(|r: CoinbaseRecord| r@)
}

/// The proof that a block header carries, as far as it could be read.
#[derive(Clone, Debug)]
pub enum ProofArtifact {
    /// The header holds no proof.
    Absent,
    /// The header holds a proof that could not be turned into bytes.
    Unserialisable,
    /// The bytes of the proof.
    Bytes(Vec<u8>),
}

/// Mathematical value of a [`ProofArtifact`].
pub enum ProofView {
    Absent,
    Unserialisable,
    Bytes(Seq<u8>),
}

impl View for ProofArtifact {
    type V = ProofView;

    open spec fn view(&self) -> ProofView {
        match self {
            ProofArtifact::Absent => ProofView::Absent,
            ProofArtifact::Unserialisable => ProofView::Unserialisable,
            ProofArtifact::Bytes(b) => ProofView::Bytes(b@),
        }
    }
}

/// A candidate block that a worker submits.
#[derive(Clone, Debug)]
pub struct ProposedBlock {
    /// The height that the block declares.
    pub height: u32,
    /// The difficulty target in the header. A worker puts its share target
    /// here; the validator puts the network's target back.
    pub difficulty_target: u64,
    /// The records that the coinbase transaction outputs, or `None` where
    /// the block has no readable coinbase transaction.
    pub coinbase: Option<Vec<CoinbaseRecord>>,
    /// The proof in the header.
    pub proof: ProofArtifact,
}

/// Mathematical value of a [`ProposedBlock`].
pub struct BlockView {
    pub height: u32,
    pub difficulty_target: u64,
    pub coinbase: Option<Seq<RecordView>>,
    pub proof: ProofView,
}

impl View for ProposedBlock {
    type V = BlockView;

    open spec fn view(&self) -> BlockView {
        BlockView {
            height: self.height,
            difficulty_target: self.difficulty_target,
            coinbase: match self.coinbase {
                Some(records) => Some(records_view(records@)),
                None => None,
            },
            proof: self.proof@,
        }
    }
}

/// At least one of `records` belongs to the pool. A pool without an address
/// owns nothing.
pub open spec fn pool_owns(records: Seq<RecordView>, pool: Option<WorkerAddress>) -> bool {
    pool matches Some(p) && exists|i: int| 0 <= i < records.len() && (#[trigger] records[i]).owner == p
}

/// Whether one of `records` is owned by `pool`.
pub fn owned_by_pool(records: &Vec<CoinbaseRecord>, pool: &Option<WorkerAddress>) -> (owned: bool)
    ensures
        owned == pool_owns(records_view(records@), *pool),
{
    match pool {
        None => false,
        Some(p) => {
            let ghost views = records_view(records@);
            let mut i: usize = 0;
            while i < records.len()
                invariant
                    i <= records@.len(),
                    *pool == Some(*p),
                    views == records_view(records@),
                    forall|j: int| 0 <= j < i ==> (#[trigger] views[j]).owner != *p,
                decreases records@.len() - i,
            {
                if records[i].owner == *p {
                    proof {
                        assert(views[i as int].owner == *p);
                    }
                    return true;
                }
                i += 1;
            }
            false
        },
    }
}

/// Copies of `records`, in the same order.
pub fn duplicate_records(records: &Vec<CoinbaseRecord>) -> (copy: Vec<CoinbaseRecord>)
    ensures
        records_view(copy@) == records_view(records@),
{
    let mut copy: Vec<CoinbaseRecord> = Vec::new();
    let mut i: usize = 0;
    while i < records.len()
        invariant
            i <= records@.len(),
            copy@.len() == i,
            forall|j: int| 0 <= j < i ==> (#[trigger] copy@[j])@ == records@[j]@,
        decreases records@.len() - i,
    {
        copy.push(records[i].duplicate());
        i += 1;
    }
    proof {
        assert(records_view(copy@) =~= records_view(records@));
    }
    copy
}

} // verus!

//! The pool as a mathematical state, and what each request makes of it.
//! The contracts of [`crate::pool::MiningPool`] are stated over these
//! functions.
use vstd::prelude::*;
use crate::address::{PeerAddr, WorkerAddress};
use crate::block::{pool_owns, BlockView, ProofView, RecordView};
use crate::digest::sha256d_as_u64;
use crate::error::PoolError;
use crate::registry::{with_share, with_worker, WorkerInfo};
use crate::share_store::{archived, credit_overflows, credited, Archive, ShareTable};
use crate::template::TemplateView;

verus! {

/// The state of a pool.
#[verifier::ext_equal]
pub struct PoolModel {
    /// The address that has to own a coinbase record of every accepted block.
    pub pool_address: Option<WorkerAddress>,
    /// The address of this node, attached to the blocks it hands on.
    pub local_ip: PeerAddr,
    /// The current block template.
    pub template: Option<TemplateView>,
    /// The row of each worker that the pool has met.
    pub workers: Map<WorkerAddress, WorkerInfo>,
    /// The shares credited at each height.
    pub shares: ShareTable,
    /// The coinbase records of the blocks found at each height.
    pub archive: Archive,
}

/// A request to the pool.
pub enum RequestView {
    ProposedBlock(PeerAddr, BlockView, WorkerAddress),
    GetCurrentBlockTemplate(PeerAddr, WorkerAddress),
    BlockHeightClear(u32),
}

/// What the pool answers to a request.
pub enum OutcomeView {
    Dropped(PoolError),
    TemplateReply { peer: PeerAddr, share_difficulty: u64, template: TemplateView },
    ShareCredited { block: BlockView, stored: bool },
    SharesCleared(u32),
}

/// A block on its way to the ledger.
pub struct UnconfirmedView {
    pub local_ip: PeerAddr,
    pub block: BlockView,
}

/// The state of a pool that has just been opened.
pub open spec fn opened(pool_address: Option<WorkerAddress>, local_ip: PeerAddr) -> PoolModel {
    PoolModel {
        pool_address,
        local_ip,
        template: None,
        workers: Map::empty(),
        shares: Map::empty(),
        archive: Map::empty(),
    }
}

/// The height of a block built on a ledger whose tip is at `tip`.
pub open spec fn next_height(tip: u32) -> u32 {
    if tip == u32::MAX {
        tip
    } else {
        (tip + 1) as u32
    }
}

/// The first reason, if there is one, to drop `block` before its proof is
/// looked at: no template, a height that is not the next one, no coinbase
/// record of the pool, no proof bytes.
pub open spec fn gate(s: PoolModel, block: BlockView, tip: u32) -> Option<PoolError> {
    if s.template is None {
        Some(PoolError::NoTemplate)
    } else if next_height(tip) != block.height {
        Some(PoolError::StaleSubmission)
    } else if block.coinbase is None {
        Some(PoolError::UnreadableCoinbase)
    } else if !pool_owns(block.coinbase->0, s.pool_address) {
        Some(PoolError::InvalidOwner)
    } else {
        match block.proof {
            ProofView::Absent => Some(PoolError::MissingProof),
            ProofView::Unserialisable => Some(PoolError::ProofEncodingError),
            ProofView::Bytes(_) => None,
        }
    }
}

/// `block` with the difficulty target `target` in its header.
pub open spec fn restored(block: BlockView, target: u64) -> BlockView {
    BlockView {
        height: block.height,
        difficulty_target: target,
        coinbase: block.coinbase,
        proof: block.proof,
    }
}

/// What a proposed block makes of the pool, where the ledger's tip is at
/// `tip`, the clock shows `now` and the proof of the block hashes to
/// `hash_difficulty`.
pub open spec fn proposal_step(
    s: PoolModel,
    block: BlockView,
    worker: WorkerAddress,
    tip: u32,
    now: i64,
    hash_difficulty: u64,
) -> (PoolModel, OutcomeView) {
    match gate(s, block, tip) {
        Some(e) => (s, OutcomeView::Dropped(e)),
        None => {
            let target = s.template->0.difficulty_target;
            let workers = with_worker(s.workers, worker, now, target);
            if hash_difficulty > workers[worker].share_difficulty {
                (
                    PoolModel {
                        pool_address: s.pool_address,
                        local_ip: s.local_ip,
                        template: s.template,
                        workers,
                        shares: s.shares,
                        archive: s.archive,
                    },
                    OutcomeView::Dropped(PoolError::FaultyShare),
                )
            } else {
                let stored = !credit_overflows(s.shares, block.height, worker, 1);
                (
                    PoolModel {
                        pool_address: s.pool_address,
                        local_ip: s.local_ip,
                        template: s.template,
                        workers: with_share(workers, worker, now),
                        shares: if stored {
                            credited(s.shares, block.height, worker, 1)
                        } else {
                            s.shares
                        },
                        archive: s.archive,
                    },
                    OutcomeView::ShareCredited { block: restored(block, target), stored },
                )
            }
        },
    }
}

/// What a request for the current template makes of the pool.
pub open spec fn template_step(s: PoolModel, peer: PeerAddr, worker: WorkerAddress, now: i64) -> (
    PoolModel,
    OutcomeView,
) {
    match s.template {
        None => (s, OutcomeView::Dropped(PoolError::NoTemplate)),
        Some(template) => {
            let workers = with_worker(s.workers, worker, now, template.difficulty_target);
            (
                PoolModel {
                    pool_address: s.pool_address,
                    local_ip: s.local_ip,
                    template: s.template,
                    workers,
                    shares: s.shares,
                    archive: s.archive,
                },
                OutcomeView::TemplateReply {
                    peer,
                    share_difficulty: workers[worker].share_difficulty,
                    template,
                },
            )
        },
    }
}

/// What clearing a height makes of the pool.
pub open spec fn clear_step(s: PoolModel, block_height: u32) -> (PoolModel, OutcomeView) {
    (
        PoolModel {
            pool_address: s.pool_address,
            local_ip: s.local_ip,
            template: s.template,
            workers: s.workers,
            shares: s.shares.remove(block_height),
            archive: s.archive,
        },
        OutcomeView::SharesCleared(block_height),
    )
}

/// What `request` makes of the pool.
pub open spec fn request_step(
    s: PoolModel,
    request: RequestView,
    tip: u32,
    now: i64,
    hash_difficulty: u64,
) -> (PoolModel, OutcomeView) {
    match request {
        RequestView::ProposedBlock(_, block, worker) => proposal_step(
            s,
            block,
            worker,
            tip,
            now,
            hash_difficulty,
        ),
        RequestView::GetCurrentBlockTemplate(peer, worker) => template_step(s, peer, worker, now),
        RequestView::BlockHeightClear(block_height) => clear_step(s, block_height),
    }
}

/// The difficulty that the proof in `request` reaches; zero where the
/// request holds no proof bytes.
pub open spec fn proof_difficulty(request: RequestView) -> u64 {
    match request {
        RequestView::ProposedBlock(_, block, _) => match block.proof {
            ProofView::Bytes(bytes) => sha256d_as_u64(bytes),
            _ => 0,
        },
        _ => 0,
    }
}

/// The coinbase records of `block`; none where it has no readable coinbase.
pub open spec fn coinbase_of(block: BlockView) -> Seq<RecordView> {
    match block.coinbase {
        Some(records) => records,
        None => Seq::empty(),
    }
}

/// What the self-validation of a credited block makes of the pool: a valid
/// block has its coinbase records archived at its height and goes to the
/// ledger, any other changes nothing.
pub open spec fn promote_step(s: PoolModel, block: BlockView, self_validates: bool) -> (
    PoolModel,
    Option<UnconfirmedView>,
) {
    if self_validates {
        (
            PoolModel {
                pool_address: s.pool_address,
                local_ip: s.local_ip,
                template: s.template,
                workers: s.workers,
                shares: s.shares,
                archive: archived(s.archive, block.height, coinbase_of(block)),
            },
            Some(UnconfirmedView { local_ip: s.local_ip, block }),
        )
    } else {
        (s, None)
    }
}

/// Whether `template` has to be built anew for a ledger whose tip is at
/// `tip`: there is none, or it is not for the height after the tip.
pub open spec fn stale(template: Option<TemplateView>, tip: u32) -> bool {
    match template {
        None => true,
        Some(t) => t.block_height - 1 != tip,
    }
}

/// What the answer of the ledger to a template order makes of the pool: a
/// template takes the place of the current one, a failure changes nothing.
pub open spec fn install_step(s: PoolModel, built: Option<TemplateView>) -> PoolModel {
    match built {
        Some(template) => PoolModel {
            pool_address: s.pool_address,
            local_ip: s.local_ip,
            template: Some(template),
            workers: s.workers,
            shares: s.shares,
            archive: s.archive,
        },
        None => s,
    }
}

} // verus!

//! The mining pool: one owner of the template, the worker registry and the
//! share store, and the handlers through which every change to them goes.
use vstd::prelude::*;
use crate::address::{PeerAddr, WorkerAddress};
use crate::assoc::AssocMap;
use crate::block::{
    owned_by_pool, records_view, BlockView, CoinbaseRecord, ProofArtifact, ProposedBlock,
};
use crate::clock::unix_timestamp;
use crate::digest::hash_difficulty;
use crate::error::PoolError;
use crate::model::{
    clear_step, gate, install_step, opened, promote_step, proof_difficulty, proposal_step,
    request_step, stale, template_step, OutcomeView, PoolModel, RequestView, UnconfirmedView,
};
use crate::registry::{WorkerInfo, WorkerRegistry};
use crate::share_store::{archived, lists, records_at, ShareStore};
use crate::template::BlockTemplate;

verus! {

/// The seconds between two looks of the refresh timer at the ledger's tip.
pub const REFRESH_PERIOD_SECS: u64 = 5;

/// The number of requests that may wait for the pool.
pub const REQUEST_CHANNEL_CAPACITY: usize = 1024;

/// A request that the pool processes.
#[derive(Debug)]
pub enum MiningPoolRequest {
    /// ProposedBlock := (peer_ip, proposed_block, worker_address)
    ProposedBlock(PeerAddr, ProposedBlock, WorkerAddress),
    /// GetCurrentBlockTemplate := (peer_ip, worker_address)
    GetCurrentBlockTemplate(PeerAddr, WorkerAddress),
    /// BlockHeightClear := (block_height)
    BlockHeightClear(u32),
}

impl View for MiningPoolRequest {
    type V = RequestView;

    open spec fn view(&self) -> RequestView {
        match self {
            MiningPoolRequest::ProposedBlock(peer, block, worker) => RequestView::ProposedBlock(
                *peer,
                block@,
                *worker,
            ),
            MiningPoolRequest::GetCurrentBlockTemplate(peer, worker) =>
                RequestView::GetCurrentBlockTemplate(*peer, *worker),
            MiningPoolRequest::BlockHeightClear(block_height) => RequestView::BlockHeightClear(
                *block_height,
            ),
        }
    }
}

/// A block whose share the pool has credited, with the network's difficulty
/// target back in its header. Only the pool makes one, so a block reaches
/// [`MiningPool::promote`] only after it has passed the validator.
#[derive(Debug)]
pub struct CreditedShare {
    block: ProposedBlock,
}

impl View for CreditedShare {
    type V = BlockView;

    closed spec fn view(&self) -> BlockView {
        self.block@
    }
}

impl CreditedShare {
    /// The block, with the network's difficulty target in its header.
    pub fn block(&self) -> (block: &ProposedBlock)
        ensures
            block@ == self@,
    {
        &self.block
    }
}

/// What the pool answers to a request.
#[derive(Debug)]
pub enum PoolOutcome {
    /// The request was dropped.
    Dropped(PoolError),
    /// The template goes to `peer`, with the share difficulty of the worker
    /// that asked.
    TemplateReply { peer: PeerAddr, share_difficulty: u64, template: BlockTemplate },
    /// The share was credited; `stored` is false where the share store could
    /// not take it. The block is now to validate itself.
    ShareCredited { share: CreditedShare, stored: bool },
    /// The shares at this height are gone.
    SharesCleared(u32),
}

impl View for PoolOutcome {
    type V = OutcomeView;

    open spec fn view(&self) -> OutcomeView {
        match self {
            PoolOutcome::Dropped(e) => OutcomeView::Dropped(*e),
            PoolOutcome::TemplateReply { peer, share_difficulty, template } =>
                OutcomeView::TemplateReply {
                    peer: *peer,
                    share_difficulty: *share_difficulty,
                    template: template@,
                },
            PoolOutcome::ShareCredited { share, stored } => OutcomeView::ShareCredited {
                block: share@,
                stored: *stored,
            },
            PoolOutcome::SharesCleared(block_height) => OutcomeView::SharesCleared(*block_height),
        }
    }
}

/// A block that the pool found, on its way to the ledger.
#[derive(Debug)]
pub struct UnconfirmedBlock {
    pub local_ip: PeerAddr,
    pub block: ProposedBlock,
}

impl View for UnconfirmedBlock {
    type V = UnconfirmedView;

    open spec fn view(&self) -> UnconfirmedView {
        UnconfirmedView { local_ip: self.local_ip, block: self.block@ }
    }
}

/// The values of an optional block on its way to the ledger.
pub open spec fn unconfirmed_view(block: Option<UnconfirmedBlock>) -> Option<UnconfirmedView> {
    match block {
        Some(b) => Some(b@),
        None => None,
    }
}

/// What the refresh timer is to do.
#[derive(Clone, Copy, Debug, PartialEq, Eq, Structural)]
pub enum RefreshAction {
    /// The template is for the height after the tip.
    Keep,
    /// A template is to be built that pays `recipient`.
    Build { recipient: WorkerAddress },
}

/// A mining pool.
pub struct MiningPool {
    /// The address of the mining pool.
    mining_pool_address: Option<WorkerAddress>,
    /// The local address of this node.
    local_ip: PeerAddr,
    /// The share store of the mining pool.
    state: ShareStore,
    /// The current block template that is being mined on by the pool.
    current_template: Option<BlockTemplate>,
    /// Peripheral information on each known worker.
    miner_info: WorkerRegistry,
}

impl View for MiningPool {
    type V = PoolModel;

    closed spec fn view(&self) -> PoolModel {
        PoolModel {
            pool_address: self.mining_pool_address,
            local_ip: self.local_ip,
            template: match self.current_template {
                Some(t) => Some(t@),
                None => None,
            },
            workers: self.miner_info@,
            shares: self.state.shares(),
            archive: self.state.archive(),
        }
    }
}

impl MiningPool {
    /// The store and the registry are well formed.
    pub closed spec fn wf(&self) -> bool {
        &&& self.state.wf()
        &&& self.miner_info.wf()
    }

    /// Initializes a new instance of the mining pool: no template, no
    /// worker, no share.
    pub fn open(mining_pool_address: Option<WorkerAddress>, local_ip: PeerAddr) -> (pool: Self)
        ensures
            pool.wf(),
            pool@ == opened(mining_pool_address, local_ip),
    {
        MiningPool {
            mining_pool_address,
            local_ip,
            state: ShareStore::new(),
            current_template: None,
            miner_info: WorkerRegistry::new(),
        }
    }

    /// Returns all the shares in storage.
    pub fn to_shares(&self) -> (rows: Vec<(u32, AssocMap<WorkerAddress, u64>)>)
        requires
            self.wf(),
        ensures
            lists(rows@, self@.shares),
    {
        self.state.to_shares()
    }

    /// Copies of the coinbase records archived at `block_height`.
    pub fn coinbase_records(&self, block_height: u32) -> (records: Vec<CoinbaseRecord>)
        requires
            self.wf(),
        ensures
            records_view(records@) == records_at(self@.archive, block_height),
    {
        self.state.coinbase_records(block_height)
    }

    /// The row of `worker` in the registry, if it has one.
    pub fn worker_info(&self, worker: &WorkerAddress) -> (info: Option<WorkerInfo>)
        requires
            self.wf(),
        ensures
            info == if self@.workers.contains_key(*worker) {
                Some(self@.workers[*worker])
            } else {
                None::<WorkerInfo>
            },
    {
        self.miner_info.get(worker)
    }

    /// The height and the difficulty target of the current template.
    pub fn template_summary(&self) -> (summary: Option<(u32, u64)>)
        ensures
            summary == match self@.template {
                Some(t) => Some((t.block_height, t.difficulty_target)),
                None => None::<(u32, u64)>,
            },
    {
        match &self.current_template {
            Some(t) => Some((t.block_height, t.difficulty_target)),
            None => None,
        }
    }

    /// Holds `block` against the template, the ledger's tip and the pool's
    /// address: the first reason to drop it, or else the network's
    /// difficulty target and the bytes of the block's proof.
    fn screen<'a>(&self, block: &'a ProposedBlock, ledger_tip_height: u32) -> (r: Result<
        (u64, &'a Vec<u8>),
        PoolError,
    >)
        ensures
            match r {
                Ok((target, bytes)) => gate(self@, block@, ledger_tip_height) is None
                    && self@.template is Some && target == self@.template->0.difficulty_target
                    && block.proof == ProofArtifact::Bytes(*bytes),
                Err(e) => gate(self@, block@, ledger_tip_height) == Some(e),
            },
    {
        let target = match &self.current_template {
            Some(template) => template.difficulty_target,
            None => {
                return Err(PoolError::NoTemplate);
            },
        };
        let next: u32 = if ledger_tip_height == u32::MAX {
            ledger_tip_height
        } else {
            ledger_tip_height + 1
        };
        if next != block.height {
            return Err(PoolError::StaleSubmission);
        }
        match &block.coinbase {
            None => {
                return Err(PoolError::UnreadableCoinbase);
            },
            Some(records) => {
                if !owned_by_pool(records, &self.mining_pool_address) {
                    return Err(PoolError::InvalidOwner);
                }
            },
        }
        match &block.proof {
            ProofArtifact::Absent => Err(PoolError::MissingProof),
            ProofArtifact::Unserialisable => Err(PoolError::ProofEncodingError),
            ProofArtifact::Bytes(bytes) => Ok((target, bytes)),
        }
    }

    /// The first reason, if there is one, to drop `block` before its proof
    /// is looked at.
    pub fn check_submission(&self, block: &ProposedBlock, ledger_tip_height: u32) -> (reason:
        Option<PoolError>)
        ensures
            reason == gate(self@, block@, ledger_tip_height),
    {
        match self.screen(block, ledger_tip_height) {
            Ok(_) => None,
            Err(e) => Some(e),
        }
    }

    /// Settles a block that nothing speaks against yet and whose proof
    /// hashes to `hash_difficulty`: meets the worker, holds the hash against
    /// its share difficulty, credits the share and puts `network_target`
    /// back into the block.
    fn settle(
        &mut self,
        block: ProposedBlock,
        worker: WorkerAddress,
        network_target: u64,
        now: i64,
        hash_difficulty: u64,
        Ghost(ledger_tip_height): Ghost<u32>,
    ) -> (outcome: PoolOutcome)
        requires
            old(self).wf(),
            gate(old(self)@, block@, ledger_tip_height) is None,
            old(self)@.template is Some,
            network_target == old(self)@.template->0.difficulty_target,
        ensures
            final(self).wf(),
            (final(self)@, outcome@) == proposal_step(
                old(self)@,
                block@,
                worker,
                ledger_tip_height,
                now,
                hash_difficulty,
            ),
    {
        let share_difficulty = self.miner_info.ensure(worker, now, network_target);
        if hash_difficulty > share_difficulty {
            return PoolOutcome::Dropped(PoolError::FaultyShare);
        }
        let stored = self.state.add_shares(block.height, &worker, 1).is_ok();
        self.miner_info.record_share(worker, now);
        let mut block = block;
        block.difficulty_target = network_target;
        PoolOutcome::ShareCredited { share: CreditedShare { block }, stored }
    }

    /// Validates a proposed block whose proof hashes to `hash_difficulty`,
    /// at time `now`: drops it for the first reason that holds, else credits
    /// one share to `worker` at the block's height, books it in the worker's
    /// row and puts the network's difficulty target back into the block.
    pub fn submit_share(
        &mut self,
        block: ProposedBlock,
        worker: WorkerAddress,
        ledger_tip_height: u32,
        now: i64,
        hash_difficulty: u64,
    ) -> (outcome: PoolOutcome)
        requires
            old(self).wf(),
        ensures
            final(self).wf(),
            (final(self)@, outcome@) == proposal_step(
                old(self)@,
                block@,
                worker,
                ledger_tip_height,
                now,
                hash_difficulty,
            ),
    {
        let network_target = match self.screen(&block, ledger_tip_height) {
            Ok((target, _)) => target,
            Err(e) => {
                return PoolOutcome::Dropped(e);
            },
        };
        self.settle(block, worker, network_target, now, hash_difficulty, Ghost(ledger_tip_height))
    }

    /// Answers a request for the current template at time `now`: makes sure
    /// that `worker` has a row and sends the template with the worker's
    /// share difficulty to `peer`.
    pub fn template_request(&mut self, peer: PeerAddr, worker: WorkerAddress, now: i64) -> (outcome:
        PoolOutcome)
        requires
            old(self).wf(),
        ensures
            final(self).wf(),
            (final(self)@, outcome@) == template_step(old(self)@, peer, worker, now),
    {
        let template = match &self.current_template {
            Some(t) => t.snapshot(),
            None => {
                return PoolOutcome::Dropped(PoolError::NoTemplate);
            },
        };
        let share_difficulty = self.miner_info.ensure(worker, now, template.difficulty_target);
        PoolOutcome::TemplateReply { peer, share_difficulty, template }
    }

    /// Removes the shares for the given block height.
    pub fn clear_height(&mut self, block_height: u32) -> (outcome: PoolOutcome)
        requires
            old(self).wf(),
        ensures
            final(self).wf(),
            (final(self)@, outcome@) == clear_step(old(self)@, block_height),
            !final(self)@.shares.contains_key(block_height),
    {
        self.state.remove_shares(block_height);
        PoolOutcome::SharesCleared(block_height)
    }

    /// Performs the given `request` to the mining pool. All requests go
    /// through here, one after the other. The ledger's tip is at
    /// `ledger_tip_height`; the time is read from the clock and the proof of
    /// a proposed block is hashed here.
    pub fn update(&mut self, request: MiningPoolRequest, ledger_tip_height: u32) -> (outcome:
        PoolOutcome)
        requires
            old(self).wf(),
        ensures
            final(self).wf(),
            exists|now: i64| #[trigger]
                request_step(
                    old(self)@,
                    request@,
                    ledger_tip_height,
                    now,
                    proof_difficulty(request@),
                ) == (final(self)@, outcome@),
    {
        let ghost before = self@;
        let ghost asked = request@;
        match request {
            MiningPoolRequest::ProposedBlock(_, block, worker) => {
                let (network_target, hash) = match self.screen(&block, ledger_tip_height) {
                    Ok((target, bytes)) => (target, hash_difficulty(bytes)),
                    Err(e) => {
                        proof {
                            assert(request_step(
                                before,
                                asked,
                                ledger_tip_height,
                                0,
                                proof_difficulty(asked),
                            ) == (self@, OutcomeView::Dropped(e)));
                        }
                        return PoolOutcome::Dropped(e);
                    },
                };
                let now = unix_timestamp();
                let outcome = self.settle(
                    block,
                    worker,
                    network_target,
                    now,
                    hash,
                    Ghost(ledger_tip_height),
                );
                proof {
                    assert(request_step(
                        before,
                        asked,
                        ledger_tip_height,
                        now,
                        proof_difficulty(asked),
                    ) == (self@, outcome@));
                }
                outcome
            },
            MiningPoolRequest::GetCurrentBlockTemplate(peer, worker) => {
                let now = unix_timestamp();
                let outcome = self.template_request(peer, worker, now);
                proof {
                    assert(request_step(
                        before,
                        asked,
                        ledger_tip_height,
                        now,
                        proof_difficulty(asked),
                    ) == (self@, outcome@));
                }
                outcome
            },
            MiningPoolRequest::BlockHeightClear(block_height) => {
                let outcome = self.clear_height(block_height);
                proof {
                    assert(request_step(
                        before,
                        asked,
                        ledger_tip_height,
                        0,
                        proof_difficulty(asked),
                    ) == (self@, outcome@));
                }
                outcome
            },
        }
    }

    /// Takes the verdict of a credited block on itself. A block that is
    /// valid under the network's difficulty target has its coinbase records
    /// archived at its height and is handed out for the ledger; any other
    /// changes nothing.
    pub fn promote(&mut self, share: CreditedShare, self_validates: bool) -> (found: Option<
        UnconfirmedBlock,
    >)
        requires
            old(self).wf(),
        ensures
            final(self).wf(),
            (final(self)@, unconfirmed_view(found)) == promote_step(
                old(self)@,
                share@,
                self_validates,
            ),
    {
        if !self_validates {
            return None;
        }
        let block = share.block;
        match &block.coinbase {
            Some(records) => {
                self.archive_records(block.height, records);
            },
            None => {},
        }
        Some(UnconfirmedBlock { local_ip: self.local_ip, block })
    }

    /// Appends copies of `records` to the archive at `block_height`, in
    /// their order.
    fn archive_records(&mut self, block_height: u32, records: &Vec<CoinbaseRecord>)
        requires
            old(self).wf(),
        ensures
            final(self).wf(),
            final(self)@ == (PoolModel {
                pool_address: old(self)@.pool_address,
                local_ip: old(self)@.local_ip,
                template: old(self)@.template,
                workers: old(self)@.workers,
                shares: old(self)@.shares,
                archive: archived(old(self)@.archive, block_height, records_view(records@)),
            }),
    {
        let ghost all = records_view(records@);
        let ghost start = self@.archive;
        let mut i: usize = 0;
        while i < records.len()
            invariant
                self.wf(),
                i <= records@.len(),
                all == records_view(records@),
                self@.pool_address == old(self)@.pool_address,
                self@.local_ip == old(self)@.local_ip,
                self@.template == old(self)@.template,
                self@.workers == old(self)@.workers,
                self@.shares == old(self)@.shares,
                start == old(self)@.archive,
                self@.archive == archived(start, block_height, all.subrange(0, i as int)),
            decreases records@.len() - i,
        {
            let record = records[i].duplicate();
            self.state.add_coinbase_record(block_height, record);
            proof {
                let done = all.subrange(0, i as int);
                let next = all.subrange(0, i + 1);
                assert(next =~= done.push(record@));
                assert(records_at(start, block_height) + next =~= (records_at(start, block_height)
                    + done) + seq![record@]);
                assert(self@.archive =~= archived(start, block_height, next));
            }
            i += 1;
        }
        proof {
            assert(all.subrange(0, all.len() as int) =~= all);
        }
    }

    /// Whether the template has to be built anew for a ledger whose tip is
    /// at `ledger_tip_height`.
    pub fn needs_refresh(&self, ledger_tip_height: u32) -> (needed: bool)
        ensures
            needed == stale(self@.template, ledger_tip_height),
    {
        match &self.current_template {
            Some(t) => t.block_height == 0 || t.block_height - 1 != ledger_tip_height,
            None => true,
        }
    }

    /// One look of the refresh timer: a template is to be built for the
    /// pool's address where the current one does not fit the tip.
    pub fn refresh_tick(&self, ledger_tip_height: u32) -> (action: RefreshAction)
        requires
            self@.pool_address is Some,
        ensures
            action == if stale(self@.template, ledger_tip_height) {
                RefreshAction::Build { recipient: self@.pool_address->0 }
            } else {
                RefreshAction::Keep
            },
    {
        if self.needs_refresh(ledger_tip_height) {
            match self.mining_pool_address {
                Some(recipient) => RefreshAction::Build { recipient },
                None => RefreshAction::Keep,
            }
        } else {
            RefreshAction::Keep
        }
    }

    /// Takes the answer of the ledger to a template order: a template takes
    /// the place of the current one; without one the pool stays as it was
    /// and the refresh fails with `TemplateBuildError`.
    pub fn complete_refresh(&mut self, built: Option<BlockTemplate>) -> (r: Result<(), PoolError>)
        requires
            old(self).wf(),
        ensures
            final(self).wf(),
            final(self)@ == install_step(
                old(self)@,
                match built {
                    Some(t) => Some(t@),
                    None => None,
                },
            ),
            match r {
                Ok(_) => built is Some,
                Err(e) => built is None && e == PoolError::TemplateBuildError,
            },
    {
        match built {
            Some(template) => {
                self.current_template = Some(template);
                Ok(())
            },
            None => Err(PoolError::TemplateBuildError),
        }
    }
}

} // verus!

//! What holds of the pool whatever it is asked: laws over the steps of
//! [`crate::model`], and over runs of events.
use vstd::prelude::*;
use crate::address::{PeerAddr, WorkerAddress};
use crate::assoc::AssocMap;
use crate::block::{pool_owns, BlockView};
use crate::model::{
    clear_step, coinbase_of, gate, install_step, next_height, opened, promote_step,
    proposal_step, request_step, stale, template_step, OutcomeView, PoolModel, RequestView,
    UnconfirmedView,
};
use crate::registry::with_worker;
use crate::share_store::{credit_overflows, lists, records_at, share_count};
use crate::template::TemplateView;

verus! {

/// Something that happens to the pool. A proposed block comes with what the
/// world says of it: where the ledger's tip is, what the clock shows, what
/// its proof hashes to and whether the block, with the network's difficulty
/// target back in its header, finds itself valid.
pub enum PoolEvent {
    Proposed {
        block: BlockView,
        worker: WorkerAddress,
        tip: u32,
        now: i64,
        hash_difficulty: u64,
        self_validates: bool,
    },
    TemplateRequested { peer: PeerAddr, worker: WorkerAddress, now: i64 },
    HeightCleared { block_height: u32 },
    Refreshed { built: Option<TemplateView> },
}

/// The share difficulty that a share of `worker` is held against: that of
/// its row, or of a first contact where it has none.
pub open spec fn share_difficulty_at(
    s: PoolModel,
    worker: WorkerAddress,
    now: i64,
) -> u64 {
    with_worker(s.workers, worker, now, s.template->0.difficulty_target)[worker].share_difficulty
}

/// The block passes every check of the validator: none of the reasons of
/// [`gate`] holds and its proof clears the worker's share difficulty.
pub open spec fn passes_validator(
    s: PoolModel,
    block: BlockView,
    worker: WorkerAddress,
    tip: u32,
    now: i64,
    hash_difficulty: u64,
) -> bool {
    gate(s, block, tip) is None && hash_difficulty <= share_difficulty_at(s, worker, now)
}

/// What an event makes of the pool, and the block that goes to the ledger
/// for it, if one does.
pub open spec fn react(s: PoolModel, e: PoolEvent) -> (PoolModel, Option<UnconfirmedView>) {
    match e {
        PoolEvent::Proposed { block, worker, tip, now, hash_difficulty, self_validates } => {
            let (credited, outcome) = proposal_step(s, block, worker, tip, now, hash_difficulty);
            match outcome {
                OutcomeView::ShareCredited { block: with_target, .. } => promote_step(
                    credited,
                    with_target,
                    self_validates,
                ),
                _ => (credited, None),
            }
        },
        PoolEvent::TemplateRequested { peer, worker, now } => (
            template_step(s, peer, worker, now).0,
            None,
        ),
        PoolEvent::HeightCleared { block_height } => (clear_step(s, block_height).0, None),
        PoolEvent::Refreshed { built } => (install_step(s, built), None),
    }
}

/// The pool after `events`, and the number of blocks that went to the ledger.
pub open spec fn run(s: PoolModel, events: Seq<PoolEvent>) -> (PoolModel, nat)
    decreases events.len(),
{
    if events.len() == 0 {
        (s, 0)
    } else {
        let (before, sent) = run(s, events.drop_last());
        let (after, found) = react(before, events.last());
        (after, if found is Some { sent + 1 } else { sent })
    }
}

/// The event is a proposed block that passes the validator in state `s` and
/// finds itself valid.
pub open spec fn qualifies(s: PoolModel, e: PoolEvent) -> bool {
    e matches PoolEvent::Proposed { block, worker, tip, now, hash_difficulty, self_validates }
        && passes_validator(s, block, worker, tip, now, hash_difficulty) && self_validates
}

/// The number of events of `events` that qualify, each in the state that the
/// events before it have made.
pub open spec fn qualifying(s: PoolModel, events: Seq<PoolEvent>) -> nat
    decreases events.len(),
{
    if events.len() == 0 {
        0
    } else {
        let earlier = qualifying(s, events.drop_last());
        if qualifies(run(s, events.drop_last()).0, events.last()) {
            earlier + 1
        } else {
            earlier
        }
    }
}

/// Every worker's share difficulty is at least the difficulty target of the
/// current template, and there is a template as soon as there is a worker.
pub open spec fn floor_kept(s: PoolModel) -> bool {
    forall|w: WorkerAddress| #[trigger]
        s.workers.contains_key(w) ==> s.template is Some && s.workers[w].share_difficulty
            >= s.template->0.difficulty_target
}

/// A share is credited only while the pool holds a template, only for the
/// height after the ledger's tip, and only where the hash of its proof is at
/// most the share difficulty in the worker's row.
pub proof fn law_credit_clears_share_difficulty(
    s: PoolModel,
    block: BlockView,
    worker: WorkerAddress,
    tip: u32,
    now: i64,
    hash_difficulty: u64,
)
    ensures
        ({
            let (after, outcome) = proposal_step(s, block, worker, tip, now, hash_difficulty);
            outcome is ShareCredited <==> passes_validator(
                s,
                block,
                worker,
                tip,
                now,
                hash_difficulty,
            )
        }),
        ({
            let (after, outcome) = proposal_step(s, block, worker, tip, now, hash_difficulty);
            outcome is ShareCredited ==> {
                &&& s.template is Some
                &&& block.height == next_height(tip)
                &&& after.workers.contains_key(worker)
                &&& hash_difficulty <= after.workers[worker].share_difficulty
            }
        }),
{
}

/// While the template is the one for the height after the ledger's tip, a
/// credited share is for the height of the template.
pub proof fn law_credit_is_at_template_height(
    s: PoolModel,
    block: BlockView,
    worker: WorkerAddress,
    tip: u32,
    now: i64,
    hash_difficulty: u64,
)
    requires
        !stale(s.template, tip),
    ensures
        proposal_step(s, block, worker, tip, now, hash_difficulty).1 is ShareCredited
            ==> s.template->0.block_height == block.height,
{
}

/// A pool that has just been opened keeps the floor of [`floor_kept`].
pub proof fn law_floor_at_opening(pool_address: Option<WorkerAddress>, local_ip: PeerAddr)
    ensures
        floor_kept(opened(pool_address, local_ip)),
{
}

/// No request lowers a share difficulty under the network's target: where
/// every worker's share difficulty is at least the difficulty target of the
/// template, it still is after any request and after any promotion.
pub proof fn law_floor_kept_by_requests(
    s: PoolModel,
    request: RequestView,
    tip: u32,
    now: i64,
    hash_difficulty: u64,
    block: BlockView,
    self_validates: bool,
)
    requires
        floor_kept(s),
    ensures
        floor_kept(request_step(s, request, tip, now, hash_difficulty).0),
        floor_kept(promote_step(s, block, self_validates).0),
{
    let after = request_step(s, request, tip, now, hash_difficulty).0;
    assert forall|w: WorkerAddress| #[trigger] after.workers.contains_key(w) implies after.template
        is Some && after.workers[w].share_difficulty >= after.template->0.difficulty_target by {
        if s.workers.contains_key(w) {
            assert(s.template is Some);
        }
        if s.template is Some {
            lemma_first_contact_floor(s.template->0.difficulty_target);
        }
    }
}

/// The share difficulty of a first contact is at least the network's target.
pub proof fn lemma_first_contact_floor(network_target: u64)
    ensures
        crate::registry::initial_share_difficulty(network_target) >= network_target,
{
}

/// A new template keeps the floor where its difficulty target is not above
/// that of the template it replaces.
pub proof fn law_floor_kept_by_refresh(s: PoolModel, built: Option<TemplateView>)
    requires
        floor_kept(s),
        built is Some && s.template is Some ==> built->0.difficulty_target
            <= s.template->0.difficulty_target,
    ensures
        floor_kept(install_step(s, built)),
{
    let after = install_step(s, built);
    assert forall|w: WorkerAddress| #[trigger] after.workers.contains_key(w) implies after.template
        is Some && after.workers[w].share_difficulty >= after.template->0.difficulty_target by {
        assert(s.workers.contains_key(w));
    }
}

/// After a height was cleared the pool holds no shares at it, and no row
/// that lists the shares is for it.
pub proof fn law_cleared_height_is_gone(
    s: PoolModel,
    block_height: u32,
    rows: Seq<(u32, AssocMap<WorkerAddress, u64>)>,
)
    requires
        lists(rows, clear_step(s, block_height).0.shares),
    ensures
        !clear_step(s, block_height).0.shares.contains_key(block_height),
        forall|i: int| 0 <= i < rows.len() ==> (#[trigger] rows[i]).0 != block_height,
{
}

/// The number of blocks that go to the ledger in a run of events is the
/// number of proposed blocks that pass the validator and find themselves
/// valid once the network's difficulty target is back in their header.
pub proof fn law_emissions_are_qualifying_proposals(s: PoolModel, events: Seq<PoolEvent>)
    ensures
        run(s, events).1 == qualifying(s, events),
    decreases events.len(),
{
    if events.len() > 0 {
        law_emissions_are_qualifying_proposals(s, events.drop_last());
    }
}

/// A block without a coinbase record of the pool earns nothing: the pool
/// stays as it was, no share is credited and nothing goes to the ledger.
pub proof fn law_foreign_coinbase_earns_nothing(
    s: PoolModel,
    block: BlockView,
    worker: WorkerAddress,
    tip: u32,
    now: i64,
    hash_difficulty: u64,
    self_validates: bool,
)
    requires
        !pool_owns(coinbase_of(block), s.pool_address),
    ensures
        proposal_step(s, block, worker, tip, now, hash_difficulty).0 == s,
        proposal_step(s, block, worker, tip, now, hash_difficulty).1 is Dropped,
        react(
            s,
            PoolEvent::Proposed { block, worker, tip, now, hash_difficulty, self_validates },
        ) == (s, None::<UnconfirmedView>),
{
}

/// One look of the refresh timer: the template is built anew where it does
/// not fit the tip.
pub open spec fn refresh_step(s: PoolModel, tip: u32, built: Option<TemplateView>) -> PoolModel {
    if stale(s.template, tip) {
        install_step(s, built)
    } else {
        s
    }
}

/// After one look of the refresh timer, with a ledger that builds the
/// template for the height after its tip, the current template is for that
/// height.
pub proof fn law_refresh_converges(s: PoolModel, tip: u32, built: TemplateView)
    requires
        built.block_height == tip + 1,
    ensures
        refresh_step(s, tip, Some(built)).template is Some,
        refresh_step(s, tip, Some(built)).template->0.block_height == tip + 1,
        !stale(refresh_step(s, tip, Some(built)).template, tip),
{
}

/// A block that was credited and stored is credited once more when it is
/// proposed again: nothing tells the second submission from the first.
pub proof fn law_resubmission_credits_again(
    s: PoolModel,
    block: BlockView,
    worker: WorkerAddress,
    tip: u32,
    now: i64,
    later: i64,
    hash_difficulty: u64,
)
    requires
        proposal_step(s, block, worker, tip, now, hash_difficulty).1 is ShareCredited,
    ensures
        ({
            let first = proposal_step(s, block, worker, tip, now, hash_difficulty);
            let second = proposal_step(first.0, block, worker, tip, later, hash_difficulty);
            &&& second.1 is ShareCredited
            &&& !credit_overflows(s.shares, block.height, worker, 2) ==> share_count(
                second.0.shares,
                block.height,
                worker,
            ) == share_count(s.shares, block.height, worker) + 2
        }),
{
}

/// The pool meets a worker when it answers its request for the template or
/// looks at the proof of its block, and it meets no one else.
pub proof fn law_contact_registers_worker(
    s: PoolModel,
    request: RequestView,
    tip: u32,
    now: i64,
    hash_difficulty: u64,
)
    ensures
        ({
            let after = request_step(s, request, tip, now, hash_difficulty).0;
            &&& forall|w: WorkerAddress| #[trigger]
                s.workers.contains_key(w) ==> after.workers.contains_key(w)
            &&& match request {
                RequestView::ProposedBlock(_, block, worker) => {
                    &&& gate(s, block, tip) is None ==> after.workers.contains_key(worker)
                    &&& gate(s, block, tip) is Some ==> after.workers == s.workers
                    &&& forall|w: WorkerAddress|
                        w != worker && #[trigger] after.workers.contains_key(w)
                            ==> s.workers.contains_key(w)
                },
                RequestView::GetCurrentBlockTemplate(_, worker) => {
                    &&& s.template is Some ==> after.workers.contains_key(worker)
                    &&& s.template is None ==> after.workers == s.workers
                    &&& forall|w: WorkerAddress|
                        w != worker && #[trigger] after.workers.contains_key(w)
                            ==> s.workers.contains_key(w)
                },
                RequestView::BlockHeightClear(_) => after.workers == s.workers,
            }
        }),
{
}

/// Within a round the store only grows: but for the clearing of a height,
/// no request and no promotion lowers a tally of shares or takes a record
/// out of the archive.
pub proof fn law_store_grows_within_a_round(
    s: PoolModel,
    request: RequestView,
    tip: u32,
    now: i64,
    hash_difficulty: u64,
    block: BlockView,
    self_validates: bool,
    block_height: u32,
    worker: WorkerAddress,
)
    requires
        !(request is BlockHeightClear),
    ensures
        ({
            let after = request_step(s, request, tip, now, hash_difficulty).0;
            &&& share_count(after.shares, block_height, worker) >= share_count(
                s.shares,
                block_height,
                worker,
            )
            &&& after.archive == s.archive
        }),
        ({
            let after = promote_step(s, block, self_validates).0;
            &&& after.shares == s.shares
            &&& records_at(s.archive, block_height).is_prefix_of(
                records_at(after.archive, block_height),
            )
        }),
{
}

/// Clearing a height twice is clearing it once.
pub proof fn law_clear_is_idempotent(s: PoolModel, block_height: u32)
    ensures
        clear_step(clear_step(s, block_height).0, block_height) == clear_step(s, block_height),
{
    let once = clear_step(s, block_height).0;
    let twice = clear_step(once, block_height).0;
    assert(twice.shares =~= once.shares);
}

} // verus!

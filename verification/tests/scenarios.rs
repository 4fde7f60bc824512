use mining_pool::address::{Address, PeerAddr};
use mining_pool::block::{CoinbaseRecord, ProofArtifact, ProposedBlock};
use mining_pool::digest::hash_difficulty;
use mining_pool::error::PoolError;
use mining_pool::pool::{MiningPool, MiningPoolRequest, PoolOutcome, RefreshAction};
use mining_pool::template::BlockTemplate;

fn address(n: u64) -> Address {
    Address { w0: n, w1: 0, w2: 0, w3: 0 }
}

fn pool_address() -> Address {
    address(1)
}

fn local() -> PeerAddr {
    PeerAddr { ip: 0x7f00_0001, port: 4132 }
}

fn peer() -> PeerAddr {
    PeerAddr { ip: 0x0a00_0002, port: 4133 }
}

fn template(block_height: u32, difficulty_target: u64) -> BlockTemplate {
    BlockTemplate { block_height, difficulty_target, payload: vec![0xde, 0xad] }
}

fn pool_with_template(block_height: u32, difficulty_target: u64) -> MiningPool {
    let mut pool = MiningPool::open(Some(pool_address()), local());
    assert_eq!(pool.complete_refresh(Some(template(block_height, difficulty_target))), Ok(()));
    pool
}

fn block_owned_by(owner: Address, height: u32) -> ProposedBlock {
    ProposedBlock {
        height,
        difficulty_target: 50_000,
        coinbase: Some(vec![CoinbaseRecord { owner, payload: vec![1, 2, 3] }]),
        proof: ProofArtifact::Bytes(vec![b'a', b'b', b'c']),
    }
}

fn shares_at(pool: &MiningPool, height: u32, worker: &Address) -> Option<u64> {
    for (h, row) in pool.to_shares() {
        if h == height {
            return row.get(worker).copied();
        }
    }
    None
}

#[test]
fn happy_share_is_credited_and_not_promoted() {
    let mut pool = pool_with_template(100, 1000);
    let w1 = address(2);
    let outcome = pool.submit_share(block_owned_by(pool_address(), 100), w1, 99, 1_700_000_000, 40_000);
    let share = match outcome {
        PoolOutcome::ShareCredited { share, stored } => {
            assert!(stored);
            share
        }
        other => panic!("expected a credit, got {:?}", other),
    };
    assert_eq!(share.block().difficulty_target, 1000);
    assert_eq!(shares_at(&pool, 100, &w1), Some(1));
    let info = pool.worker_info(&w1).unwrap();
    assert_eq!(info.share_difficulty, 50_000);
    assert_eq!(info.shares_since_reset, 1);
    assert_eq!(info.last_submitted, 1_700_000_000);
    // The block does not find itself valid under the network's target.
    assert!(pool.promote(share, false).is_none());
    assert!(pool.coinbase_records(100).is_empty());
}

#[test]
fn full_block_is_credited_and_promoted() {
    let mut pool = pool_with_template(100, 1000);
    let w1 = address(2);
    let outcome = pool.submit_share(block_owned_by(pool_address(), 100), w1, 99, 1_700_000_000, 500);
    let share = match outcome {
        PoolOutcome::ShareCredited { share, stored: true } => share,
        other => panic!("expected a credit, got {:?}", other),
    };
    assert_eq!(shares_at(&pool, 100, &w1), Some(1));
    let found = pool.promote(share, true).expect("the block goes to the ledger");
    assert_eq!(found.local_ip, local());
    assert_eq!(found.block.height, 100);
    assert_eq!(found.block.difficulty_target, 1000);
    let archived = pool.coinbase_records(100);
    assert_eq!(archived.len(), 1);
    assert_eq!(archived[0].owner, pool_address());
    assert_eq!(archived[0].payload, vec![1, 2, 3]);
}

#[test]
fn stolen_coinbase_is_dropped() {
    let mut pool = pool_with_template(100, 1000);
    let w1 = address(2);
    let attacker = address(666);
    let outcome = pool.submit_share(block_owned_by(attacker, 100), w1, 99, 1_700_000_000, 500);
    assert!(matches!(outcome, PoolOutcome::Dropped(PoolError::InvalidOwner)));
    assert!(pool.to_shares().is_empty());
    assert!(pool.worker_info(&w1).is_none());
}

#[test]
fn stale_block_is_dropped() {
    let mut pool = pool_with_template(100, 1000);
    let w1 = address(2);
    let outcome = pool.submit_share(block_owned_by(pool_address(), 100), w1, 105, 1_700_000_000, 500);
    assert!(matches!(outcome, PoolOutcome::Dropped(PoolError::StaleSubmission)));
    assert!(pool.to_shares().is_empty());
}

#[test]
fn faulty_share_is_dropped() {
    let mut pool = pool_with_template(100, 1000);
    let w = address(2);
    let outcome = pool.submit_share(block_owned_by(pool_address(), 100), w, 99, 1_700_000_000, 80_000);
    assert!(matches!(outcome, PoolOutcome::Dropped(PoolError::FaultyShare)));
    assert!(pool.to_shares().is_empty());
    let info = pool.worker_info(&w).unwrap();
    assert_eq!(info.share_difficulty, 50_000);
    assert_eq!(info.shares_since_reset, 0);
}

#[test]
fn share_at_the_share_difficulty_is_credited() {
    let mut pool = pool_with_template(100, 1000);
    let w = address(2);
    let at = pool.submit_share(block_owned_by(pool_address(), 100), w, 99, 7, 50_000);
    assert!(matches!(at, PoolOutcome::ShareCredited { .. }));
    let above = pool.submit_share(block_owned_by(pool_address(), 100), w, 99, 8, 50_001);
    assert!(matches!(above, PoolOutcome::Dropped(PoolError::FaultyShare)));
    assert_eq!(shares_at(&pool, 100, &w), Some(1));
    assert_eq!(pool.worker_info(&w).unwrap().last_submitted, 7);
}

#[test]
fn template_request_at_first_contact() {
    let mut pool = pool_with_template(100, 1000);
    let w_new = address(9);
    let outcome = pool.template_request(peer(), w_new, 1_700_000_000);
    match outcome {
        PoolOutcome::TemplateReply { peer: to, share_difficulty, template } => {
            assert_eq!(to, peer());
            assert_eq!(share_difficulty, 50_000);
            assert_eq!(template.block_height, 100);
            assert_eq!(template.difficulty_target, 1000);
            assert_eq!(template.payload, vec![0xde, 0xad]);
        }
        other => panic!("expected the template, got {:?}", other),
    }
    let info = pool.worker_info(&w_new).unwrap();
    assert_eq!(info.share_difficulty, 50_000);
    assert_eq!(info.shares_since_reset, 0);
    assert_eq!(info.last_submitted, 1_700_000_000);
}

#[test]
fn template_request_keeps_the_row_of_a_known_worker() {
    let mut pool = pool_with_template(100, 1000);
    let w = address(9);
    pool.template_request(peer(), w, 10);
    assert_eq!(pool.complete_refresh(Some(template(101, 400))), Ok(()));
    match pool.template_request(peer(), w, 20) {
        PoolOutcome::TemplateReply { share_difficulty, template, .. } => {
            assert_eq!(share_difficulty, 50_000);
            assert_eq!(template.block_height, 101);
        }
        other => panic!("expected the template, got {:?}", other),
    }
    assert_eq!(pool.worker_info(&w).unwrap().last_submitted, 10);
}

#[test]
fn round_clear_removes_the_height() {
    let mut pool = pool_with_template(100, 1000);
    let w1 = address(2);
    pool.submit_share(block_owned_by(pool_address(), 100), w1, 99, 1_700_000_000, 40_000);
    assert_eq!(shares_at(&pool, 100, &w1), Some(1));
    let outcome = pool.update(MiningPoolRequest::BlockHeightClear(100), 99);
    assert!(matches!(outcome, PoolOutcome::SharesCleared(100)));
    assert!(pool.to_shares().iter().all(|(h, _)| *h != 100));
    assert!(pool.to_shares().is_empty());
    // The counter of the worker stays.
    assert_eq!(pool.worker_info(&w1).unwrap().shares_since_reset, 1);
}

#[test]
fn round_clear_twice_is_round_clear_once() {
    let mut pool = pool_with_template(100, 1000);
    let w1 = address(2);
    let w2 = address(3);
    pool.submit_share(block_owned_by(pool_address(), 100), w1, 99, 1, 40_000);
    assert_eq!(pool.complete_refresh(Some(template(101, 1000))), Ok(()));
    pool.submit_share(block_owned_by(pool_address(), 101), w2, 100, 2, 40_000);
    pool.clear_height(100);
    let once: Vec<(u32, Option<u64>)> =
        pool.to_shares().iter().map(|(h, row)| (*h, row.get(&w2).copied())).collect();
    pool.clear_height(100);
    let twice: Vec<(u32, Option<u64>)> =
        pool.to_shares().iter().map(|(h, row)| (*h, row.get(&w2).copied())).collect();
    assert_eq!(once, vec![(101, Some(1))]);
    assert_eq!(once, twice);
}

#[test]
fn identical_submissions_both_credit() {
    let mut pool = pool_with_template(100, 1000);
    let w1 = address(2);
    let first = pool.submit_share(block_owned_by(pool_address(), 100), w1, 99, 1_700_000_000, 40_000);
    let second = pool.submit_share(block_owned_by(pool_address(), 100), w1, 99, 1_700_000_000, 40_000);
    assert!(matches!(first, PoolOutcome::ShareCredited { stored: true, .. }));
    assert!(matches!(second, PoolOutcome::ShareCredited { stored: true, .. }));
    assert_eq!(shares_at(&pool, 100, &w1), Some(2));
    assert_eq!(pool.worker_info(&w1).unwrap().shares_since_reset, 2);
}

#[test]
fn no_template_drops_every_request_that_needs_one() {
    let mut pool = MiningPool::open(Some(pool_address()), local());
    let w = address(2);
    let proposed = pool.submit_share(block_owned_by(pool_address(), 100), w, 99, 1, 1);
    assert!(matches!(proposed, PoolOutcome::Dropped(PoolError::NoTemplate)));
    let asked = pool.template_request(peer(), w, 1);
    assert!(matches!(asked, PoolOutcome::Dropped(PoolError::NoTemplate)));
    assert!(pool.worker_info(&w).is_none());
    assert_eq!(pool.template_summary(), None);
}

#[test]
fn gate_reasons_come_in_order() {
    let pool = pool_with_template(100, 1000);
    let mut block = block_owned_by(address(666), 100);
    block.proof = ProofArtifact::Absent;
    // A stale block with a foreign coinbase and no proof is stale first.
    assert_eq!(pool.check_submission(&block, 7), Some(PoolError::StaleSubmission));
    assert_eq!(pool.check_submission(&block, 99), Some(PoolError::InvalidOwner));
    block.coinbase = None;
    assert_eq!(pool.check_submission(&block, 99), Some(PoolError::UnreadableCoinbase));
    block.coinbase = Some(vec![
        CoinbaseRecord { owner: address(666), payload: vec![] },
        CoinbaseRecord { owner: pool_address(), payload: vec![] },
    ]);
    assert_eq!(pool.check_submission(&block, 99), Some(PoolError::MissingProof));
    block.proof = ProofArtifact::Unserialisable;
    assert_eq!(pool.check_submission(&block, 99), Some(PoolError::ProofEncodingError));
    block.proof = ProofArtifact::Bytes(vec![]);
    assert_eq!(pool.check_submission(&block, 99), None);
}

#[test]
fn pool_without_address_owns_no_coinbase() {
    let mut pool = MiningPool::open(None, local());
    assert_eq!(pool.complete_refresh(Some(template(100, 1000))), Ok(()));
    let block = block_owned_by(pool_address(), 100);
    assert_eq!(pool.check_submission(&block, 99), Some(PoolError::InvalidOwner));
}

#[test]
fn height_after_the_last_tip_is_the_last_height() {
    let pool = pool_with_template(u32::MAX, 1000);
    let block = block_owned_by(pool_address(), u32::MAX);
    assert_eq!(pool.check_submission(&block, u32::MAX), None);
    assert_eq!(pool.check_submission(&block, u32::MAX - 1), None);
    assert_eq!(pool.check_submission(&block, u32::MAX - 2), Some(PoolError::StaleSubmission));
}

#[test]
fn promotion_archives_every_coinbase_record_in_order() {
    let mut pool = pool_with_template(100, 1000);
    let w = address(2);
    let mut block = block_owned_by(pool_address(), 100);
    block.coinbase = Some(vec![
        CoinbaseRecord { owner: address(5), payload: vec![5] },
        CoinbaseRecord { owner: pool_address(), payload: vec![6] },
    ]);
    let share = match pool.submit_share(block, w, 99, 1, 3) {
        PoolOutcome::ShareCredited { share, .. } => share,
        other => panic!("expected a credit, got {:?}", other),
    };
    assert!(pool.promote(share, true).is_some());
    let share = match pool.submit_share(block_owned_by(pool_address(), 100), w, 99, 2, 3) {
        PoolOutcome::ShareCredited { share, .. } => share,
        other => panic!("expected a credit, got {:?}", other),
    };
    assert!(pool.promote(share, true).is_some());
    let payloads: Vec<Vec<u8>> = pool.coinbase_records(100).into_iter().map(|r| r.payload).collect();
    assert_eq!(payloads, vec![vec![5], vec![6], vec![1, 2, 3]]);
    // Clearing the shares keeps the archive.
    pool.clear_height(100);
    assert_eq!(pool.coinbase_records(100).len(), 3);
}

#[test]
fn emissions_count_the_proposals_that_pass_and_validate() {
    let mut pool = pool_with_template(100, 1000);
    let w = address(2);
    // (owner, tip, hash, self-validates)
    let proposals = [
        (pool_address(), 99, 500, true),
        (pool_address(), 99, 40_000, false),
        (address(666), 99, 500, true),
        (pool_address(), 98, 500, true),
        (pool_address(), 99, 80_000, true),
        (pool_address(), 99, 1, true),
    ];
    let mut emitted = 0;
    for (owner, tip, hash, valid) in proposals {
        if let PoolOutcome::ShareCredited { share, .. } =
            pool.submit_share(block_owned_by(owner, 100), w, tip, 1, hash)
        {
            if pool.promote(share, valid).is_some() {
                emitted += 1;
            }
        }
    }
    assert_eq!(emitted, 2);
    assert_eq!(shares_at(&pool, 100, &w), Some(3));
}

#[test]
fn refresh_follows_the_tip() {
    let mut pool = MiningPool::open(Some(pool_address()), local());
    assert!(pool.needs_refresh(0));
    assert_eq!(pool.refresh_tick(99), RefreshAction::Build { recipient: pool_address() });
    assert_eq!(pool.complete_refresh(Some(template(100, 1000))), Ok(()));
    assert_eq!(pool.template_summary(), Some((100, 1000)));
    assert!(!pool.needs_refresh(99));
    assert_eq!(pool.refresh_tick(99), RefreshAction::Keep);
    // The chain advances.
    assert!(pool.needs_refresh(100));
    assert_eq!(pool.refresh_tick(100), RefreshAction::Build { recipient: pool_address() });
    assert_eq!(pool.complete_refresh(Some(template(101, 900))), Ok(()));
    assert_eq!(pool.template_summary(), Some((101, 900)));
    assert!(!pool.needs_refresh(100));
}

#[test]
fn template_at_height_zero_is_stale_for_every_tip() {
    let pool = pool_with_template(0, 1000);
    assert!(pool.needs_refresh(0));
    assert!(pool.needs_refresh(u32::MAX));
}

#[test]
fn failed_template_build_keeps_the_template() {
    let mut pool = MiningPool::open(Some(pool_address()), local());
    assert_eq!(pool.complete_refresh(None), Err(PoolError::TemplateBuildError));
    assert_eq!(pool.template_summary(), None);
    assert_eq!(pool.complete_refresh(Some(template(100, 1000))), Ok(()));
    assert_eq!(pool.complete_refresh(None), Err(PoolError::TemplateBuildError));
    assert_eq!(pool.template_summary(), Some((100, 1000)));
}

#[test]
fn proof_bytes_are_hashed_twice_with_sha256() {
    assert_eq!(hash_difficulty(&vec![]), 15229225016263505501);
    assert_eq!(hash_difficulty(&vec![b'a', b'b', b'c']), 11201247416709974863);
    assert_eq!(hash_difficulty(&vec![7]), 16987937772739089846);
}

#[test]
fn update_hashes_the_proof_of_a_proposed_block() {
    // With the largest target every hash clears the share difficulty.
    let mut pool = pool_with_template(100, u64::MAX);
    let w = address(2);
    let request = MiningPoolRequest::ProposedBlock(peer(), block_owned_by(pool_address(), 100), w);
    assert!(matches!(pool.update(request, 99), PoolOutcome::ShareCredited { stored: true, .. }));
    assert_eq!(shares_at(&pool, 100, &w), Some(1));

    // The proof "abc" hashes to 11201247416709974863: a share difficulty just
    // under it turns the share down, one at it lets it pass.
    let target = 11201247416709974863 / 50;
    let mut pool = pool_with_template(100, target);
    let request = MiningPoolRequest::ProposedBlock(peer(), block_owned_by(pool_address(), 100), w);
    assert_eq!(pool.worker_info(&w), None);
    assert!(matches!(pool.update(request, 99), PoolOutcome::Dropped(PoolError::FaultyShare)));
    assert_eq!(pool.worker_info(&w).unwrap().share_difficulty, target * 50);
    let mut pool = pool_with_template(100, target + 1);
    let request = MiningPoolRequest::ProposedBlock(peer(), block_owned_by(pool_address(), 100), w);
    assert!(matches!(pool.update(request, 99), PoolOutcome::ShareCredited { .. }));
}

#[test]
fn update_stamps_rows_with_the_clock() {
    let mut pool = pool_with_template(100, 1000);
    let w = address(2);
    let outcome = pool.update(MiningPoolRequest::GetCurrentBlockTemplate(peer(), w), 99);
    assert!(matches!(outcome, PoolOutcome::TemplateReply { share_difficulty: 50_000, .. }));
    // Some time after the first of January 2021.
    assert!(pool.worker_info(&w).unwrap().last_submitted > 1_609_459_200);
}

#[test]
fn update_drops_a_stale_block_without_meeting_the_worker() {
    let mut pool = pool_with_template(100, 1000);
    let w = address(2);
    let request = MiningPoolRequest::ProposedBlock(peer(), block_owned_by(pool_address(), 100), w);
    assert!(matches!(pool.update(request, 105), PoolOutcome::Dropped(PoolError::StaleSubmission)));
    assert_eq!(pool.worker_info(&w), None);
}

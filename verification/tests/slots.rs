use wallet_fanout::state::FanoutV0;

fn pool(next: u32, free: &[u32]) -> FanoutV0 {
    FanoutV0 {
        next_cron_transaction_id: next,
        available_cron_transaction_ides: free.to_vec(),
        ..FanoutV0::default()
    }
}

#[test]
fn fresh_ids_count_up_from_zero() {
    let mut fanout = pool(0, &[]);
    assert_eq!(fanout.get_next_cron_transaction_id(), 0);
    assert_eq!(fanout.get_next_cron_transaction_id(), 1);
    assert_eq!(fanout.get_next_cron_transaction_id(), 2);
    assert_eq!(fanout.next_cron_transaction_id, 3);
    assert!(fanout.available_cron_transaction_ides.is_empty());
    assert!(fanout.is_well_formed());
}

#[test]
fn largest_free_id_is_taken_first() {
    let mut fanout = pool(10, &[1, 4, 7]);
    assert_eq!(fanout.get_next_cron_transaction_id(), 7);
    assert_eq!(fanout.available_cron_transaction_ides, vec![1, 4]);
    assert_eq!(fanout.next_cron_transaction_id, 10);
    assert_eq!(fanout.get_next_cron_transaction_id(), 4);
    assert_eq!(fanout.get_next_cron_transaction_id(), 1);
    assert_eq!(fanout.get_next_cron_transaction_id(), 10);
    assert_eq!(fanout.next_cron_transaction_id, 11);
}

#[test]
fn released_id_goes_to_its_place() {
    let mut fanout = pool(10, &[1, 7]);
    fanout.return_cron_transaction_id_to_pool(4);
    assert_eq!(fanout.available_cron_transaction_ides, vec![1, 4, 7]);
    fanout.return_cron_transaction_id_to_pool(0);
    assert_eq!(fanout.available_cron_transaction_ides, vec![0, 1, 4, 7]);
    fanout.return_cron_transaction_id_to_pool(8);
    assert_eq!(fanout.available_cron_transaction_ides, vec![0, 1, 4, 7, 8]);
    assert_eq!(fanout.next_cron_transaction_id, 10);
    assert!(fanout.is_well_formed());
}

#[test]
fn double_release_changes_nothing() {
    let mut fanout = pool(10, &[1, 4, 7]);
    fanout.return_cron_transaction_id_to_pool(4);
    assert_eq!(fanout, pool(10, &[1, 4, 7]));
}

#[test]
fn releasing_the_highest_id_lowers_the_counter() {
    let mut fanout = pool(5, &[]);
    fanout.return_cron_transaction_id_to_pool(4);
    assert_eq!(fanout, pool(4, &[]));
}

#[test]
fn the_counter_falls_through_a_run_of_free_ids() {
    let mut fanout = pool(6, &[1, 3, 4]);
    fanout.return_cron_transaction_id_to_pool(5);
    assert_eq!(fanout, pool(3, &[1]));
    fanout.return_cron_transaction_id_to_pool(2);
    assert_eq!(fanout, pool(1, &[]));
    fanout.return_cron_transaction_id_to_pool(0);
    assert_eq!(fanout, pool(0, &[]));
}

#[test]
fn take_then_return_restores_a_fresh_pool() {
    let before = pool(0, &[]);
    let mut fanout = before.clone();
    let id = fanout.get_next_cron_transaction_id();
    fanout.return_cron_transaction_id_to_pool(id);
    assert_eq!(fanout, before);
}

#[test]
fn take_then_return_restores_a_pool_with_gaps() {
    let before = pool(9, &[2, 3, 6]);
    let mut fanout = before.clone();
    let id = fanout.get_next_cron_transaction_id();
    assert_eq!(id, 6);
    fanout.return_cron_transaction_id_to_pool(id);
    assert_eq!(fanout, before);
}

#[test]
fn take_then_return_restores_a_pool_without_free_ids() {
    let before = pool(9, &[]);
    let mut fanout = before.clone();
    let id = fanout.get_next_cron_transaction_id();
    assert_eq!(id, 9);
    assert_eq!(fanout.next_cron_transaction_id, 10);
    fanout.return_cron_transaction_id_to_pool(id);
    assert_eq!(fanout, before);
}

#[test]
fn free_ids_stay_below_the_counter_and_apart() {
    let mut fanout = pool(0, &[]);
    let mut taken = Vec::new();
    for _ in 0..8 {
        taken.push(fanout.get_next_cron_transaction_id());
    }
    for id in [3u32, 5, 1, 7, 6, 3] {
        fanout.return_cron_transaction_id_to_pool(id);
        assert!(fanout.is_well_formed());
        let free = &fanout.available_cron_transaction_ides;
        assert!(free.iter().all(|x| *x < fanout.next_cron_transaction_id));
        assert!(free.windows(2).all(|w| w[0] < w[1]));
    }
    assert_eq!(fanout.available_cron_transaction_ides, vec![1, 3]);
    assert_eq!(fanout.next_cron_transaction_id, 5);
}

#[test]
fn the_last_id_can_be_taken_when_one_is_free() {
    let mut fanout = pool(u32::MAX, &[17]);
    assert_eq!(fanout.get_next_cron_transaction_id(), 17);
    assert_eq!(fanout.next_cron_transaction_id, u32::MAX);
}

#[test]
fn well_formedness_is_recognised() {
    assert!(pool(0, &[]).is_well_formed());
    assert!(pool(5, &[0, 3]).is_well_formed());
    // the id below the counter is free
    assert!(!pool(5, &[0, 4]).is_well_formed());
    // a free id at the counter
    assert!(!pool(5, &[5]).is_well_formed());
    // not sorted
    assert!(!pool(5, &[3, 0]).is_well_formed());
    // twice the same
    assert!(!pool(5, &[2, 2]).is_well_formed());
    // more shares issued than there are
    let fanout = FanoutV0 { total_shares: 3, total_shares_issued: 4, ..FanoutV0::default() };
    assert!(!fanout.is_well_formed());
}

use mineball::{
    add_liquidity, claim_rewards, compute_tax_split, distribute_rewards, execute_buyback,
    initialize, reward_share, split_bps, transfer_with_tax, AddLiquidity, ClaimRewards,
    DistributeRewards, ExecuteBuyback, HolderInfo, Initialize, MineballError, MineballState,
    Pubkey, TaxSplit, TransferWithTax, BASIS_POINTS, DEFAULT_BUYBACK_THRESHOLD,
    DEFAULT_LIQUIDITY_THRESHOLD, DEFAULT_REWARD_THRESHOLD, MAX_TAX_RATE, MIN_CLAIM_INTERVAL,
};

fn key(b: u8) -> Pubkey {
    Pubkey::new_from_array([b; 32])
}

fn setup() -> Initialize {
    Initialize { authority: key(1), mint: key(2), mint_supply: 1_000_000, now: 1_700_000_000, bump: 254 }
}

fn state_with(tax: u16, m: u16, b: u16, l: u16, burn: u16) -> MineballState {
    initialize(&setup(), tax, m, b, l, burn).unwrap()
}

fn transfer_ctx() -> TransferWithTax {
    TransferWithTax { from: key(3), to: key(4), now: 1_700_000_100 }
}

fn fresh_holder() -> HolderInfo {
    HolderInfo {
        holder: Pubkey::default(),
        total_rewards_earned: 0,
        last_claim: 0,
        pending_rewards: 0,
        bump: 0,
    }
}

fn claim_ctx(pool: u64, balance: u64, supply: u64, now: i64) -> ClaimRewards {
    ClaimRewards {
        holder: key(9),
        holder_balance: balance,
        reward_pool_balance: pool,
        mint_supply: supply,
        now,
        bump: 7,
    }
}

#[test]
fn split_scenario_exact_values() {
    let sp = compute_tax_split(10_000, 600, 5000, 3000, 1500).unwrap();
    assert_eq!(
        sp,
        TaxSplit { amount: 10_000, tax: 600, net: 9400, mining: 300, buyback: 180, liquidity: 90, burn: 30 }
    );
    assert_eq!(sp.mining + sp.buyback + sp.liquidity + sp.burn, sp.tax);
}

#[test]
fn transfer_scenario_routes_pools_and_counters() {
    let mut s = state_with(600, 5000, 3000, 1500, 500);
    let out = transfer_with_tax(&mut s, &transfer_ctx(), 10_000).unwrap();
    assert_eq!(out.split.net, 9400);
    assert_eq!(out.split.burn, 30);
    assert_eq!(s.mining_reward_pool, 300);
    assert_eq!(s.buyback_pool, 180);
    assert_eq!(s.liquidity_pool, 90);
    assert_eq!(s.total_burned, 30);
    assert_eq!(s.total_volume, 10_000);
    assert_eq!(out.event.amount, 10_000);
    assert_eq!(out.event.tax_amount, 600);
    assert_eq!(out.event.from, key(3));
    assert_eq!(out.event.to, key(4));
    assert_eq!(out.event.timestamp, 1_700_000_100);
}

#[test]
fn split_conserves_amount_on_many_inputs() {
    let amounts: [u64; 7] = [1, 7, 99, 10_001, 123_456_789, u64::MAX / 3, u64::MAX];
    let policies: [(u16, u16, u16, u16, u16); 4] = [
        (600, 5000, 3000, 1500, 500),
        (1000, 3333, 3333, 3333, 1),
        (0, 2500, 2500, 2500, 2500),
        (999, 0, 0, 0, 10000),
    ];
    for &amount in amounts.iter() {
        for &(t, m, b, l, _) in policies.iter() {
            let sp = compute_tax_split(amount, t, m, b, l).unwrap();
            let sum = sp.net as u128 + sp.mining as u128 + sp.buyback as u128
                + sp.liquidity as u128 + sp.burn as u128;
            assert_eq!(sum, amount as u128);
        }
    }
}

#[test]
fn rounding_dust_goes_to_burn() {
    let sp = compute_tax_split(1_000, 1000, 3333, 3333, 3333).unwrap();
    assert_eq!(sp.tax, 100);
    assert_eq!(sp.mining, 33);
    assert_eq!(sp.buyback, 33);
    assert_eq!(sp.liquidity, 33);
    assert_eq!(sp.burn, 1);
}

#[test]
fn split_bps_exact_and_overflow() {
    assert_eq!(split_bps(10_000, 600), Ok(600));
    assert_eq!(split_bps(9_999, 1), Ok(0));
    assert_eq!(split_bps(u64::MAX, 10_000), Ok(u64::MAX));
    assert_eq!(split_bps(u64::MAX, 20_000), Err(MineballError::ArithmeticOverflow));
}

#[test]
fn split_with_rate_above_whole_fails() {
    assert_eq!(compute_tax_split(100, 20_000, 0, 0, 0), Err(MineballError::ArithmeticOverflow));
    assert_eq!(compute_tax_split(10_000, 1000, 9000, 9000, 0), Err(MineballError::ArithmeticOverflow));
}

#[test]
fn zero_amount_is_rejected() {
    let mut s = state_with(600, 5000, 3000, 1500, 500);
    let before = s;
    assert_eq!(transfer_with_tax(&mut s, &transfer_ctx(), 0), Err(MineballError::InvalidAmount));
    assert_eq!(s, before);
}

#[test]
fn pool_overflow_rejects_whole_transfer() {
    let mut s = state_with(600, 5000, 3000, 1500, 500);
    s.buyback_pool = u64::MAX;
    s.mining_reward_pool = 5;
    let before = s;
    assert_eq!(
        transfer_with_tax(&mut s, &transfer_ctx(), 10_000),
        Err(MineballError::ArithmeticOverflow)
    );
    assert_eq!(s, before);
}

#[test]
fn volume_overflow_rejects_transfer() {
    let mut s = state_with(0, 2500, 2500, 2500, 2500);
    s.total_volume = u64::MAX - 1;
    let before = s;
    assert_eq!(transfer_with_tax(&mut s, &transfer_ctx(), 2), Err(MineballError::ArithmeticOverflow));
    assert_eq!(s, before);
    assert!(transfer_with_tax(&mut s, &transfer_ctx(), 1).is_ok());
    assert_eq!(s.total_volume, u64::MAX);
}

#[test]
fn initialize_equal_shares_succeeds() {
    let s = initialize(&setup(), 600, 2500, 2500, 2500, 2500).unwrap();
    assert_eq!(s.tax_rate, 600);
    assert_eq!(s.mining_reward_share, 2500);
    assert_eq!(s.burn_share, 2500);
    assert_eq!(s.authority, key(1));
    assert_eq!(s.mint, key(2));
    assert_eq!(s.total_supply, 1_000_000);
    assert_eq!(s.mining_reward_pool, 0);
    assert_eq!(s.total_volume, 0);
    assert_eq!(s.reward_distribution_threshold, DEFAULT_REWARD_THRESHOLD);
    assert_eq!(s.buyback_threshold, DEFAULT_BUYBACK_THRESHOLD);
    assert_eq!(s.liquidity_threshold, DEFAULT_LIQUIDITY_THRESHOLD);
    assert_eq!(s.created_at, 1_700_000_000);
    assert_eq!(s.last_buyback, 1_700_000_000);
    assert_eq!(s.bump, 254);
}

#[test]
fn initialize_shares_short_of_whole_fail() {
    assert_eq!(
        initialize(&setup(), 600, 2500, 2500, 2500, 2400),
        Err(MineballError::InvalidTaxShares)
    );
}

#[test]
fn initialize_tax_rate_bounds() {
    assert!(initialize(&setup(), MAX_TAX_RATE, 10000, 0, 0, 0).is_ok());
    assert!(initialize(&setup(), 0, 0, 0, 0, 10000).is_ok());
    assert_eq!(
        initialize(&setup(), MAX_TAX_RATE + 1, 2500, 2500, 2500, 2500),
        Err(MineballError::InvalidTaxRate)
    );
}

#[test]
fn initialize_share_sum_overflow() {
    assert_eq!(
        initialize(&setup(), 600, u16::MAX, 1, 0, 0),
        Err(MineballError::ArithmeticOverflow)
    );
    assert_eq!(
        initialize(&setup(), 600, 10000, 10000, 0, 0),
        Err(MineballError::InvalidTaxShares)
    );
    assert_eq!(BASIS_POINTS, 10000);
}

#[test]
fn reward_flush_twice_succeeds_then_fails() {
    let mut s = state_with(600, 5000, 3000, 1500, 500);
    s.mining_reward_pool = DEFAULT_REWARD_THRESHOLD + 5;
    let ev = distribute_rewards(&mut s, &DistributeRewards { now: 50 }).unwrap();
    assert_eq!(ev.amount, DEFAULT_REWARD_THRESHOLD + 5);
    assert_eq!(ev.cycle, 1);
    assert_eq!(ev.recipients, 0);
    assert_eq!(ev.timestamp, 50);
    assert_eq!(s.mining_reward_pool, 0);
    assert_eq!(s.total_rewards_distributed, DEFAULT_REWARD_THRESHOLD + 5);
    assert_eq!(s.total_mining_cycles, 1);
    assert_eq!(s.last_reward_distribution, 50);
    let after = s;
    assert_eq!(
        distribute_rewards(&mut s, &DistributeRewards { now: 51 }),
        Err(MineballError::RewardPoolBelowThreshold)
    );
    assert_eq!(s, after);
}

#[test]
fn reward_flush_below_threshold_fails() {
    let mut s = state_with(600, 5000, 3000, 1500, 500);
    s.mining_reward_pool = DEFAULT_REWARD_THRESHOLD - 1;
    let before = s;
    assert_eq!(
        distribute_rewards(&mut s, &DistributeRewards { now: 50 }),
        Err(MineballError::RewardPoolBelowThreshold)
    );
    assert_eq!(s, before);
    s.mining_reward_pool = DEFAULT_REWARD_THRESHOLD;
    assert!(distribute_rewards(&mut s, &DistributeRewards { now: 50 }).is_ok());
}

#[test]
fn reward_flush_counter_overflow() {
    let mut s = state_with(600, 5000, 3000, 1500, 500);
    s.mining_reward_pool = DEFAULT_REWARD_THRESHOLD;
    s.total_mining_cycles = u64::MAX;
    let before = s;
    assert_eq!(
        distribute_rewards(&mut s, &DistributeRewards { now: 50 }),
        Err(MineballError::ArithmeticOverflow)
    );
    assert_eq!(s, before);
}

#[test]
fn buyback_flush_twice_succeeds_then_fails() {
    let mut s = state_with(600, 5000, 3000, 1500, 500);
    s.buyback_pool = DEFAULT_BUYBACK_THRESHOLD;
    s.total_mining_cycles = 4;
    let ev = execute_buyback(&mut s, &ExecuteBuyback { now: 60 }).unwrap();
    assert_eq!(ev.amount, DEFAULT_BUYBACK_THRESHOLD);
    assert_eq!(ev.tokens_bought, DEFAULT_BUYBACK_THRESHOLD);
    assert_eq!(ev.cycle, 4);
    assert_eq!(s.buyback_pool, 0);
    assert_eq!(s.total_buyback_executed, DEFAULT_BUYBACK_THRESHOLD);
    assert_eq!(s.last_buyback, 60);
    assert_eq!(
        execute_buyback(&mut s, &ExecuteBuyback { now: 61 }),
        Err(MineballError::BuybackPoolBelowThreshold)
    );
}

#[test]
fn buyback_total_overflow() {
    let mut s = state_with(600, 5000, 3000, 1500, 500);
    s.buyback_pool = DEFAULT_BUYBACK_THRESHOLD;
    s.total_buyback_executed = u64::MAX;
    let before = s;
    assert_eq!(
        execute_buyback(&mut s, &ExecuteBuyback { now: 60 }),
        Err(MineballError::ArithmeticOverflow)
    );
    assert_eq!(s, before);
}

#[test]
fn liquidity_flush_twice_succeeds_then_fails() {
    let mut s = state_with(600, 5000, 3000, 1500, 500);
    s.liquidity_pool = DEFAULT_LIQUIDITY_THRESHOLD + 1;
    let ev = add_liquidity(&mut s, &AddLiquidity { now: 70 }).unwrap();
    assert_eq!(ev.amount, DEFAULT_LIQUIDITY_THRESHOLD + 1);
    assert_eq!(ev.cycle, 0);
    assert_eq!(s.liquidity_pool, 0);
    assert_eq!(s.total_liquidity_added, DEFAULT_LIQUIDITY_THRESHOLD + 1);
    assert_eq!(s.last_liquidity_add, 70);
    assert_eq!(
        add_liquidity(&mut s, &AddLiquidity { now: 71 }),
        Err(MineballError::LiquidityPoolBelowThreshold)
    );
}

#[test]
fn liquidity_total_overflow() {
    let mut s = state_with(600, 5000, 3000, 1500, 500);
    s.liquidity_pool = DEFAULT_LIQUIDITY_THRESHOLD;
    s.total_liquidity_added = u64::MAX - DEFAULT_LIQUIDITY_THRESHOLD + 1;
    assert_eq!(
        add_liquidity(&mut s, &AddLiquidity { now: 60 }),
        Err(MineballError::ArithmeticOverflow)
    );
}

#[test]
fn reward_share_scenario() {
    assert_eq!(reward_share(1_000_000, 100, 10_000), Ok(10_000));
    assert_eq!(reward_share(1_000, 3, 7), Ok(428));
    assert_eq!(reward_share(1_000, 3, 0), Ok(0));
    assert_eq!(reward_share(u64::MAX, 2, 1), Err(MineballError::ArithmeticOverflow));
    assert_eq!(reward_share(u64::MAX, u64::MAX, u64::MAX), Ok(u64::MAX));
}

#[test]
fn first_claim_opens_record_and_pays_share() {
    let mut h = fresh_holder();
    let ev = claim_rewards(&mut h, &claim_ctx(1_000_000, 100, 10_000, 5_000)).unwrap();
    assert_eq!(ev.amount, 10_000);
    assert_eq!(ev.holder, key(9));
    assert_eq!(ev.timestamp, 5_000);
    assert_eq!(h.holder, key(9));
    assert_eq!(h.total_rewards_earned, 10_000);
    assert_eq!(h.last_claim, 5_000);
    assert_eq!(h.pending_rewards, 0);
    assert_eq!(h.bump, 7);
}

#[test]
fn claim_within_cooldown_is_rejected() {
    let mut h = fresh_holder();
    claim_rewards(&mut h, &claim_ctx(1_000_000, 100, 10_000, 5_000)).unwrap();
    let after = h;
    let early = 5_000 + MIN_CLAIM_INTERVAL - 1;
    assert_eq!(
        claim_rewards(&mut h, &claim_ctx(1_000_000, 100, 10_000, early)),
        Err(MineballError::NoRewardsToClaim)
    );
    assert_eq!(h, after);
    let ev = claim_rewards(&mut h, &claim_ctx(500, 100, 10_000, 5_000 + MIN_CLAIM_INTERVAL)).unwrap();
    assert_eq!(ev.amount, 5);
    assert_eq!(h.total_rewards_earned, 10_005);
    assert_eq!(h.last_claim, 5_000 + MIN_CLAIM_INTERVAL);
}

#[test]
fn claim_of_zero_share_is_rejected() {
    let mut h = fresh_holder();
    assert_eq!(
        claim_rewards(&mut h, &claim_ctx(99, 1, 100, 5_000)),
        Err(MineballError::NoRewardsToClaim)
    );
    assert_eq!(
        claim_rewards(&mut h, &claim_ctx(1_000, 1, 0, 5_000)),
        Err(MineballError::NoRewardsToClaim)
    );
    assert_eq!(h, fresh_holder());
}

#[test]
fn claim_share_overflow_is_rejected() {
    let mut h = fresh_holder();
    assert_eq!(
        claim_rewards(&mut h, &claim_ctx(u64::MAX, 3, 1, 5_000)),
        Err(MineballError::ArithmeticOverflow)
    );
}

#[test]
fn claim_earned_total_overflow_is_rejected() {
    let mut h = HolderInfo {
        holder: key(9),
        total_rewards_earned: u64::MAX - 1,
        last_claim: 0,
        pending_rewards: 0,
        bump: 3,
    };
    let before = h;
    assert_eq!(
        claim_rewards(&mut h, &claim_ctx(100, 2, 100, 5_000)),
        Err(MineballError::ArithmeticOverflow)
    );
    assert_eq!(h, before);
}

#[test]
fn existing_record_is_kept_on_claim() {
    let mut h = HolderInfo {
        holder: key(5),
        total_rewards_earned: 40,
        last_claim: 1_000,
        pending_rewards: 2,
        bump: 3,
    };
    let ev = claim_rewards(&mut h, &claim_ctx(1_000, 10, 100, 1_000 + MIN_CLAIM_INTERVAL)).unwrap();
    assert_eq!(ev.amount, 100);
    assert_eq!(h.holder, key(5));
    assert_eq!(h.total_rewards_earned, 140);
    assert_eq!(h.pending_rewards, 2);
    assert_eq!(h.bump, 3);
}

#[test]
fn pubkey_default_and_bytes() {
    assert!(Pubkey::default().is_default());
    assert!(!key(1).is_default());
    let mut bytes = [0u8; 32];
    bytes[31] = 1;
    assert!(!Pubkey::new_from_array(bytes).is_default());
    assert_eq!(Pubkey::new_from_array(bytes).to_bytes(), bytes);
}

#[test]
fn record_sizes() {
    assert_eq!(MineballState::LEN, 347);
    assert_eq!(HolderInfo::LEN, 129);
}

#[test]
fn error_messages() {
    assert_eq!(MineballError::InvalidTaxShares.message(), "Tax shares do not sum to 10000 basis points");
    assert_eq!(MineballError::NoRewardsToClaim.message(), "No rewards available to claim");
    assert_eq!(MineballError::ArithmeticOverflow.message(), "Arithmetic overflow");
}

#[test]
fn policy_check_follows_initialize_rules() {
    let mut s = state_with(600, 5000, 3000, 1500, 500);
    assert!(s.has_valid_policy());
    s.burn_share = 499;
    assert!(!s.has_valid_policy());
    s.burn_share = 500;
    s.tax_rate = MAX_TAX_RATE + 1;
    assert!(!s.has_valid_policy());
}

#[test]
fn instructions_keep_policy_and_grow_counters() {
    let mut s = state_with(1000, 4000, 3000, 2000, 1000);
    s.reward_distribution_threshold = 10;
    s.buyback_threshold = 10;
    s.liquidity_threshold = 10;
    let policy = (s.tax_rate, s.mining_reward_share, s.buyback_share, s.liquidity_share, s.burn_share);
    for _ in 0..5 {
        let before = s;
        transfer_with_tax(&mut s, &transfer_ctx(), 1_000).unwrap();
        assert!(s.total_volume > before.total_volume);
        assert!(s.total_burned >= before.total_burned);
    }
    assert_eq!(s.mining_reward_pool, 200);
    assert_eq!(s.buyback_pool, 150);
    assert_eq!(s.liquidity_pool, 100);
    assert_eq!(s.total_burned, 50);
    distribute_rewards(&mut s, &DistributeRewards { now: 1 }).unwrap();
    execute_buyback(&mut s, &ExecuteBuyback { now: 2 }).unwrap();
    add_liquidity(&mut s, &AddLiquidity { now: 3 }).unwrap();
    assert_eq!(s.total_rewards_distributed, 200);
    assert_eq!(s.total_buyback_executed, 150);
    assert_eq!(s.total_liquidity_added, 100);
    assert_eq!(s.total_volume, 5_000);
    assert_eq!(
        (s.tax_rate, s.mining_reward_share, s.buyback_share, s.liquidity_share, s.burn_share),
        policy
    );
    assert!(s.has_valid_policy());
}

#[test]
fn small_transfer_has_zero_shares() {
    let mut s = state_with(600, 5000, 3000, 1500, 500);
    let out = transfer_with_tax(&mut s, &transfer_ctx(), 10).unwrap();
    assert_eq!(out.split.tax, 0);
    assert_eq!(out.split.net, 10);
    assert_eq!(out.split.mining, 0);
    assert_eq!(out.split.burn, 0);
    assert_eq!(s.mining_reward_pool, 0);
    assert_eq!(s.total_volume, 10);
}

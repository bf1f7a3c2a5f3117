use apricot_client::error::ApricotError;
use apricot_client::state::{
    AssetPool, Float64, RawAmt, UserInfo, ASSET_POOL_SIZE, MAX_ASSETS_PER_USER,
    NATIVE_RAW_SHIFT, RAW_PER_NATIVE, REWARD_INFO_SIZE, USER_ASSET_INFO_SIZE, USER_INFO_SIZE,
};
use apricot_client::utils::{
    get_best_page_id, is_user_active, UserInfoHeader, UserPagesStats, INVALID_PAGE_ID, NUM_PAGES,
    USER_PAGES_STATS_SIZE,
};

fn put(buffer: &mut [u8], offset: usize, bytes: &[u8]) {
    buffer[offset..offset + bytes.len()].copy_from_slice(bytes);
}

fn float(value: f64) -> Float64 {
    Float64 { bits: value.to_bits() }
}

#[test]
fn sizes_are_the_packed_sizes() {
    assert_eq!(NATIVE_RAW_SHIFT, 24);
    assert_eq!(RAW_PER_NATIVE, 1u128 << 24);
    assert_eq!(MAX_ASSETS_PER_USER, 16);
    assert_eq!(USER_ASSET_INFO_SIZE, 98);
    assert_eq!(REWARD_INFO_SIZE, 104);
    assert_eq!(USER_INFO_SIZE, 3 + 16 * 98 + 104 + 8 + 16);
    assert_eq!(ASSET_POOL_SIZE, 459);
}

#[test]
fn native_amount_of_whole_units_is_exact() {
    for n in [0u64, 1, 5, 1 << 24, 6_674_310_936_768, u64::MAX - 1, u64::MAX] {
        assert_eq!(RawAmt::new((n as u128) << 24).to_native_amount(), n);
        assert_eq!(RawAmt::from_native_amount(n).to_native_amount(), n);
        assert_eq!(RawAmt::from_native_amount(n), RawAmt::new((n as u128) << 24));
    }
}

#[test]
fn native_amount_drops_the_fraction() {
    assert_eq!(RawAmt::new((5u128 << 24) + 1).to_native_amount(), 5);
    assert_eq!(RawAmt::new((5u128 << 24) + 0xff_ffff).to_native_amount(), 5);
    assert_eq!(RawAmt::new((6u128 << 24) - 1).to_native_amount(), 5);
    assert_eq!(RawAmt::new(0xff_ffff).to_native_amount(), 0);
}

#[test]
fn native_amount_is_cut_to_64_bits() {
    assert_eq!(RawAmt::new(u128::MAX).to_native_amount(), u64::MAX);
    assert_eq!(RawAmt::new(1u128 << 88).to_native_amount(), 0);
    assert_eq!(RawAmt::new((1u128 << 88) + (7u128 << 24)).to_native_amount(), 7);
}

#[test]
fn raw_amounts_compare_by_the_whole_value() {
    let small = RawAmt::new(5u128 << 24);
    let large = RawAmt::new((5u128 << 24) + 1);
    assert_eq!(small.to_native_amount(), large.to_native_amount());
    assert!(small.is_less_than(&large));
    assert!(!large.is_less_than(&small));
    assert!(!small.is_less_than(&small));
    assert!(small < large);
    assert_ne!(small, large);
}

fn sample_user_info() -> Vec<u8> {
    let mut data = vec![0u8; USER_INFO_SIZE];
    put(&mut data, 0, &321u16.to_le_bytes());
    data[2] = 2;
    // first position
    data[3] = 4;
    data[4] = 1;
    put(&mut data, 5, &((1000u128 << 24) + 3).to_le_bytes());
    put(&mut data, 21, &11u64.to_le_bytes());
    put(&mut data, 29, &1.5f64.to_le_bytes());
    put(&mut data, 37, &2.5f64.to_le_bytes());
    put(&mut data, 45, &3.5f64.to_le_bytes());
    put(&mut data, 53, &(2000u128 << 24).to_le_bytes());
    put(&mut data, 69, &22u64.to_le_bytes());
    put(&mut data, 77, &4.5f64.to_le_bytes());
    put(&mut data, 85, &5.5f64.to_le_bytes());
    put(&mut data, 93, &6.5f64.to_le_bytes());
    // second position
    data[3 + 98] = 12;
    put(&mut data, 3 + 98 + 2, &(77u128 << 24).to_le_bytes());
    // last position
    data[3 + 15 * 98] = 200;
    put(&mut data, 3 + 15 * 98 + 2, &(88u128 << 24).to_le_bytes());
    // rewards
    for i in 0..4 {
        put(&mut data, 1571 + 8 * i, &(10.0 + i as f64).to_le_bytes());
    }
    put(&mut data, 1571 + 32, &20.0f64.to_le_bytes());
    put(&mut data, 1571 + 40, &21.0f64.to_le_bytes());
    put(&mut data, 1571 + 48, &22.0f64.to_le_bytes());
    put(&mut data, 1571 + 56, &23.0f64.to_le_bytes());
    put(&mut data, 1571 + 64, &24.0f64.to_le_bytes());
    put(&mut data, 1571 + 72, &25.0f64.to_le_bytes());
    put(&mut data, 1571 + 80, &26.0f64.to_le_bytes());
    put(&mut data, 1571 + 88, &27.0f64.to_le_bytes());
    put(&mut data, 1571 + 96, &28.0f64.to_le_bytes());
    put(&mut data, 1675, &[1, 2, 3, 4, 5, 6, 7, 8]);
    put(&mut data, 1683, &1_650_000_000u64.to_le_bytes());
    put(&mut data, 1691, &1_650_000_001u64.to_le_bytes());
    data
}

#[test]
fn user_info_is_read_at_its_offsets() {
    let info = UserInfo::from_bytes(&sample_user_info()).unwrap();
    assert_eq!(info.page_id, 321);
    assert_eq!(info.num_assets, 2);
    let first = info.user_asset_info[0];
    assert_eq!(first.pool_id, 4);
    assert_eq!(first.use_as_collateral, 1);
    assert_eq!(first.deposit_amount, RawAmt::new((1000u128 << 24) + 3));
    assert_eq!(first.deposit_interests, 11);
    assert_eq!(first.deposit_index, float(1.5));
    assert_eq!(first.reward_deposit_amount, float(2.5));
    assert_eq!(first.reward_deposit_index, float(3.5));
    assert_eq!(first.borrow_amount, RawAmt::new(2000u128 << 24));
    assert_eq!(first.borrow_interests, 22);
    assert_eq!(first.borrow_index, float(4.5));
    assert_eq!(first.reward_borrow_amount, float(5.5));
    assert_eq!(first.reward_borrow_index, float(6.5));
    assert_eq!(info.user_asset_info[1].pool_id, 12);
    assert_eq!(info.user_asset_info[1].deposit_amount.to_native_amount(), 77);
    assert_eq!(info.user_asset_info[15].pool_id, 200);
    assert_eq!(info.user_asset_info[2].pool_id, 0);
    assert_eq!(
        info.reward.vesting,
        [float(10.0), float(11.0), float(12.0), float(13.0)]
    );
    assert_eq!(info.reward.prev_week_apt, float(20.0));
    assert_eq!(info.reward.unused, [float(21.0), float(22.0)]);
    assert_eq!(info.reward.vesting_apt, float(23.0));
    assert_eq!(info.reward.available_apt, float(24.0));
    assert_eq!(info.reward.available_mnde, float(25.0));
    assert_eq!(info.reward.available_wldo, float(26.0));
    assert_eq!(info.reward.available_b180socn, float(27.0));
    assert_eq!(info.reward.available_wluna, float(28.0));
    assert_eq!(f64::from_bits(info.reward.available_wluna.bits), 28.0);
    assert_eq!(info.pad, [1, 2, 3, 4, 5, 6, 7, 8]);
    assert_eq!(info.last_vest_cutoff_timestamp, 1_650_000_000);
    assert_eq!(info.last_update_timestamp, 1_650_000_001);
}

#[test]
fn user_info_ignores_what_follows_it() {
    let mut data = sample_user_info();
    let short = UserInfo::from_bytes(&data).unwrap();
    data.extend_from_slice(&[9; 40]);
    assert_eq!(UserInfo::from_bytes(&data), Ok(short));
}

#[test]
fn short_user_info_is_an_error() {
    let data = sample_user_info();
    assert_eq!(UserInfo::from_bytes(&data[..USER_INFO_SIZE - 1]), Err(ApricotError::BufferTooSmall));
    assert_eq!(UserInfo::from_bytes(&[]), Err(ApricotError::BufferTooSmall));
    assert_eq!(UserInfo::from_bytes(&[0; 2]), Err(ApricotError::BufferTooSmall));
}

#[test]
fn deposit_of_a_pool_is_that_of_its_first_position() {
    let info = UserInfo::from_bytes(&sample_user_info()).unwrap();
    assert_eq!(info.deposit_native_amount(4), 1000);
    assert_eq!(info.deposit_native_amount(12), 77);
    assert_eq!(info.deposit_native_amount(200), 88);
    assert_eq!(info.deposit_native_amount(9), 0);
    // the unused positions are in pool 0 and hold nothing
    assert_eq!(info.deposit_native_amount(0), 0);
}

fn sample_asset_pool() -> Vec<u8> {
    let mut data = vec![0u8; ASSET_POOL_SIZE];
    put(&mut data, 0, b"USDC");
    put(&mut data, 32, &[1; 32]);
    put(&mut data, 64, &1000u64.to_le_bytes());
    data[72] = 3;
    put(&mut data, 73, &(6_674_310_936_768u128 << 24).to_le_bytes());
    put(&mut data, 89, &1.25f64.to_le_bytes());
    put(&mut data, 97, &((4_307_894_688_295u128 << 24) + 0x80_0000).to_le_bytes());
    put(&mut data, 113, &1.5f64.to_le_bytes());
    put(&mut data, 121, &0.2f64.to_le_bytes());
    put(&mut data, 129, &(9u128 << 24).to_le_bytes());
    put(&mut data, 145, &7u64.to_le_bytes());
    put(&mut data, 153, &0.01f64.to_le_bytes());
    put(&mut data, 161, &1_650_000_000u64.to_le_bytes());
    put(&mut data, 169, &[2; 32]);
    put(&mut data, 201, &[3; 32]);
    put(&mut data, 233, &[4; 32]);
    put(&mut data, 265, &[5; 32]);
    put(&mut data, 297, &99u64.to_le_bytes());
    put(&mut data, 305, &0.8f64.to_le_bytes());
    put(&mut data, 313, &0.9f64.to_le_bytes());
    data[321] = 0x81;
    put(&mut data, 322, &0.01f64.to_le_bytes());
    put(&mut data, 330, &0.0823529411764706f64.to_le_bytes());
    put(&mut data, 338, &6.133333333333333f64.to_le_bytes());
    put(&mut data, 346, &0.85f64.to_le_bytes());
    put(&mut data, 354, &0.063154f64.to_le_bytes());
    put(&mut data, 362, &0.032610f64.to_le_bytes());
    put(&mut data, 370, &2.0f64.to_le_bytes());
    put(&mut data, 378, &0.5f64.to_le_bytes());
    put(&mut data, 386, &100u64.to_le_bytes());
    put(&mut data, 394, &60u64.to_le_bytes());
    put(&mut data, 402, &40u64.to_le_bytes());
    put(&mut data, 410, &0.001f64.to_le_bytes());
    put(&mut data, 418, &0.002f64.to_le_bytes());
    put(&mut data, 426, &1.75f64.to_le_bytes());
    put(&mut data, 434, &1.85f64.to_le_bytes());
    put(&mut data, 442, &5_000_000u64.to_le_bytes());
    data[450] = 1;
    put(&mut data, 451, &0.07f64.to_le_bytes());
    data
}

#[test]
fn asset_pool_is_read_at_its_offsets() {
    let pool = AssetPool::from_bytes(&sample_asset_pool()).unwrap();
    let mut name = [0u8; 32];
    name[..4].copy_from_slice(b"USDC");
    assert_eq!(pool.token_name, name);
    assert_eq!(pool.mint_key.to_bytes(), [1; 32]);
    assert_eq!(pool.mint_decimal_multiplier, 1000);
    assert_eq!(pool.pool_id, 3);
    assert_eq!(pool.deposit_amount.to_native_amount(), 6_674_310_936_768);
    assert_eq!(pool.deposit_index, float(1.25));
    assert_eq!(pool.borrow_amount.to_native_amount(), 4_307_894_688_295);
    assert_eq!(pool.borrow_amount.amt, (4_307_894_688_295u128 << 24) + 0x80_0000);
    assert_eq!(pool.borrow_index, float(1.5));
    assert_eq!(pool.reserve_factor, float(0.2));
    assert_eq!(pool.fee_amount, RawAmt::new(9u128 << 24));
    assert_eq!(pool.fee_withdrawn_amount, 7);
    assert_eq!(pool.current_fee_rate, float(0.01));
    assert_eq!(pool.last_update_time, 1_650_000_000);
    assert_eq!(pool.spl_key.to_bytes(), [2; 32]);
    assert_eq!(pool.atoken_mint_key.to_bytes(), [3; 32]);
    assert_eq!(pool.asset_price_key.to_bytes(), [4; 32]);
    assert_eq!(pool.pyth_price_key.to_bytes(), [5; 32]);
    assert_eq!(pool.serum_next_cl_id, 99);
    assert_eq!(pool.ltv, float(0.8));
    assert_eq!(pool.safe_factor, float(0.9));
    assert_eq!(pool.flags, 0x81);
    assert_eq!(pool.base_rate, float(0.01));
    assert_eq!(pool.multiplier, float(0.0823529411764706));
    assert_eq!(pool.jump_multiplier, float(6.133333333333333));
    assert_eq!(pool.kink, float(0.85));
    assert_eq!(pool.current_borrow_rate, float(0.063154));
    assert_eq!(pool.current_deposit_rate, float(0.032610));
    assert_eq!(pool.reward_multiplier, float(2.0));
    assert_eq!(pool.reward_deposit_intra_share, float(0.5));
    assert_eq!(pool.reward_apr_per_year, 100);
    assert_eq!(pool.deposit_apt_reward_amount_per_year, 60);
    assert_eq!(pool.borrow_apt_reward_amount_per_year, 40);
    assert_eq!(pool.apt_reward_per_year_per_deposit, float(0.001));
    assert_eq!(pool.apt_reward_per_year_per_borrow, float(0.002));
    assert_eq!(pool.reward_deposit_index, float(1.75));
    assert_eq!(pool.reward_borrow_index, float(1.85));
    assert_eq!(pool.deposit_cap, 5_000_000);
    assert_eq!(pool.is_disabled, 1);
    assert_eq!(pool.farm_yield, float(0.07));
}

#[test]
fn short_asset_pool_is_an_error() {
    let data = sample_asset_pool();
    assert_eq!(AssetPool::from_bytes(&data[..458]), Err(ApricotError::BufferTooSmall));
    assert_eq!(AssetPool::from_bytes(&[]), Err(ApricotError::BufferTooSmall));
    let mut longer = data.clone();
    longer.push(0);
    assert_eq!(AssetPool::from_bytes(&longer), AssetPool::from_bytes(&data));
}

#[test]
fn totals_after_a_change_add_the_native_amounts() {
    let pool = AssetPool::from_bytes(&sample_asset_pool()).unwrap();
    assert_eq!(
        pool.native_amounts_after(10_000_000_000, 100_000_000),
        (6_674_310_936_768 + 10_000_000_000, 4_307_894_688_295 + 100_000_000)
    );
    assert_eq!(pool.native_amounts_after(0, 0), (6_674_310_936_768, 4_307_894_688_295));
}

#[test]
fn user_is_active_unless_the_page_is_invalid() {
    assert_eq!(INVALID_PAGE_ID, u16::MAX);
    assert_eq!(is_user_active(&[0, 0]), Ok(true));
    assert_eq!(is_user_active(&[0xff, 0xff]), Ok(false));
    assert_eq!(is_user_active(&[0xfe, 0xff]), Ok(true));
    assert_eq!(is_user_active(&[0xff, 0xfe]), Ok(true));
    assert_eq!(is_user_active(&sample_user_info()), Ok(true));
    let mut unused = sample_user_info();
    put(&mut unused, 0, &[0xff, 0xff]);
    assert_eq!(is_user_active(&unused), Ok(false));
}

#[test]
fn head_of_a_short_account_is_an_error() {
    assert_eq!(is_user_active(&[]), Err(ApricotError::BufferTooSmall));
    assert_eq!(is_user_active(&[0xff]), Err(ApricotError::BufferTooSmall));
    assert_eq!(UserInfoHeader::from_bytes(&[1]), Err(ApricotError::BufferTooSmall));
    assert_eq!(UserInfoHeader::from_bytes(&[1, 2]), Ok(UserInfoHeader { page_id: 0x0201 }));
}

fn stats_with(slots: &[(usize, u16)]) -> Vec<u8> {
    let mut data = vec![0u8; USER_PAGES_STATS_SIZE];
    for (page, free) in slots {
        put(&mut data, 2 * page, &free.to_le_bytes());
    }
    data
}

#[test]
fn best_page_is_the_one_with_the_most_free_slots() {
    assert_eq!(NUM_PAGES, 5000);
    assert_eq!(USER_PAGES_STATS_SIZE, 10000);
    assert_eq!(get_best_page_id(&stats_with(&[(17, 3), (200, 9), (4000, 8)])), Ok(200));
    assert_eq!(get_best_page_id(&stats_with(&[(0, 1)])), Ok(0));
    assert_eq!(get_best_page_id(&stats_with(&[(4999, 256), (1, 255)])), Ok(4999));
    assert_eq!(get_best_page_id(&stats_with(&[(3, 0x0100), (4, 0x00ff)])), Ok(3));
}

#[test]
fn best_page_is_the_last_of_equals() {
    assert_eq!(get_best_page_id(&stats_with(&[(17, 9), (200, 9), (4000, 8)])), Ok(200));
    assert_eq!(get_best_page_id(&stats_with(&[])), Ok(4999));
    assert_eq!(get_best_page_id(&vec![0xff; USER_PAGES_STATS_SIZE]), Ok(4999));
}

#[test]
fn best_page_ignores_what_follows_the_count() {
    let mut data = stats_with(&[(5, 2)]);
    data.extend_from_slice(&[0xff; 64]);
    assert_eq!(get_best_page_id(&data), Ok(5));
}

#[test]
fn short_count_of_free_slots_is_an_error() {
    assert_eq!(get_best_page_id(&vec![0; 9999]), Err(ApricotError::BufferTooSmall));
    assert_eq!(get_best_page_id(&[]), Err(ApricotError::BufferTooSmall));
    assert_eq!(UserPagesStats::from_bytes(&vec![0; 9999]), Err(ApricotError::BufferTooSmall));
    let stats = UserPagesStats::from_bytes(&stats_with(&[(2, 7)])).unwrap();
    assert_eq!(stats.num_free_slots.len(), 5000);
    assert_eq!(stats.num_free_slots[2], 7);
    assert_eq!(stats.num_free_slots[3], 0);
}

#[test]
fn user_info_is_written_as_it_was_read() {
    let data = sample_user_info();
    let info = UserInfo::from_bytes(&data).unwrap();
    assert_eq!(info.to_bytes(), data);
    assert_eq!(UserInfo::from_bytes(&info.to_bytes()), Ok(info));
    let mut out = vec![0xee];
    info.write(&mut out);
    assert_eq!(out.len(), 1 + USER_INFO_SIZE);
    assert_eq!(out[1..], data[..]);
}

#[test]
fn user_info_survives_writing_and_reading() {
    let mut info = UserInfo::from_bytes(&vec![0u8; USER_INFO_SIZE]).unwrap();
    info.page_id = 0xfffe;
    info.num_assets = 16;
    for (i, position) in info.user_asset_info.iter_mut().enumerate() {
        position.pool_id = i as u8 + 1;
        position.use_as_collateral = (i % 2) as u8;
        position.deposit_amount = RawAmt::new(u128::MAX - i as u128);
        position.deposit_interests = u64::MAX - i as u64;
        position.deposit_index = float(1.0 + i as f64);
        position.borrow_amount = RawAmt::new(i as u128);
        position.reward_borrow_index = float(-0.5 * i as f64);
    }
    info.reward.vesting[3] = float(f64::MAX);
    info.reward.unused[1] = float(f64::MIN_POSITIVE);
    info.reward.available_wluna = float(7.25);
    info.pad = [8, 7, 6, 5, 4, 3, 2, 1];
    info.last_vest_cutoff_timestamp = u64::MAX;
    info.last_update_timestamp = 1;
    let bytes = info.to_bytes();
    assert_eq!(bytes.len(), USER_INFO_SIZE);
    assert_eq!(UserInfo::from_bytes(&bytes), Ok(info));
    assert_eq!(bytes[..3], [0xfe, 0xff, 16]);
    assert_eq!(bytes[3 + 98 * 15], 16);
}

#[test]
fn position_is_written_in_its_98_bytes() {
    let info = UserInfo::from_bytes(&sample_user_info()).unwrap();
    let mut out = Vec::new();
    info.user_asset_info[0].write(&mut out);
    assert_eq!(out, sample_user_info()[3..101].to_vec());
    let mut reward = Vec::new();
    info.reward.write(&mut reward);
    assert_eq!(reward, sample_user_info()[1571..1675].to_vec());
}

#[test]
fn asset_pool_is_written_as_it_was_read() {
    let data = sample_asset_pool();
    let pool = AssetPool::from_bytes(&data).unwrap();
    assert_eq!(pool.to_bytes(), data);
    assert_eq!(AssetPool::from_bytes(&pool.to_bytes()), Ok(pool));
    let mut out = vec![1, 2];
    pool.write(&mut out);
    assert_eq!(out.len(), 2 + ASSET_POOL_SIZE);
    assert_eq!(out[2..], data[..]);
}

#[test]
fn raw_amount_is_sixteen_bytes_least_significant_first() {
    let mut bytes = [0u8; 16];
    bytes[0] = 1;
    bytes[3] = 5;
    assert_eq!(RawAmt::from_le_bytes(&bytes), RawAmt::new((5u128 << 24) + 1));
    assert_eq!(RawAmt::from_le_bytes(&bytes).to_native_amount(), 5);
    assert_eq!(RawAmt::new((5u128 << 24) + 1).to_le_bytes(), bytes.to_vec());
    assert_eq!(RawAmt::from_le_bytes(&[0xff; 16]), RawAmt::new(u128::MAX));
    for raw in [0u128, 1, 1 << 24, u128::MAX / 3, u128::MAX] {
        let written = RawAmt::new(raw).to_le_bytes();
        assert_eq!(written, raw.to_le_bytes().to_vec());
        let array: [u8; 16] = written.try_into().unwrap();
        assert_eq!(RawAmt::from_le_bytes(&array), RawAmt::new(raw));
    }
}

#[test]
fn account_with_too_many_positions_is_not_well_formed() {
    let mut data = sample_user_info();
    assert!(UserInfo::from_bytes(&data).unwrap().is_well_formed());
    data[2] = 16;
    assert!(UserInfo::from_bytes(&data).unwrap().is_well_formed());
    data[2] = 17;
    assert!(!UserInfo::from_bytes(&data).unwrap().is_well_formed());
}

use apricot_client::anchor::{
    AddUserAndDeposit, Apricot, ApricotPool, ApricotUser, ClaimAptRewards, Deposit, Lend,
    Withdraw, USER_RENT_FEE,
};
use apricot_client::client::{
    claim_lm_apt_reward, deposit_instruction, find_associated_token_address,
    get_user_deposit_amount, get_user_token_account, token_account_found, withdraw_instruction,
};
use apricot_client::config::{get_mint_by_pool_id, APT_ID};
use apricot_client::consts::{program_id, PROGRAM_ID};
use apricot_client::error::ApricotError;
use apricot_client::instructions::{
    add_user_and_deposit_full, borrow_full, claim_apt_lm_reward, deposit_full,
    make_lm_reward_claimable, withdraw_full,
};
use apricot_client::pubkey::Pubkey;
use apricot_client::samples::{
    process_instruction, SAMPLE_ACCOUNTS, SAMPLE_BORROW_AMOUNT, SAMPLE_BORROW_POOL_ID,
    SAMPLE_DEPOSIT_AMOUNT, SAMPLE_DEPOSIT_POOL_ID,
};
use apricot_client::state::{ASSET_POOL_SIZE, USER_INFO_SIZE};

fn key(n: u8) -> Pubkey {
    Pubkey::new_from_array([n; 32])
}

fn lend() -> Lend {
    Lend {
        user_spl: key(2),
        user_info: key(5),
        asset_pool: key(6),
        asset_pool_spl: key(7),
        pool_summaries: key(8),
        token_program: key(11),
    }
}

fn associated(wallet: &Pubkey, mint: &Pubkey) -> [u8; 32] {
    let found = spl_associated_token_account::get_associated_token_address(
        &spl_token::solana_program::pubkey::Pubkey::new_from_array(wallet.to_bytes()),
        &spl_token::solana_program::pubkey::Pubkey::new_from_array(mint.to_bytes()),
    );
    found.to_bytes()
}

#[test]
fn rent_fee_is_fixed() {
    assert_eq!(USER_RENT_FEE, 16_439_520);
}

#[test]
fn program_account_accepts_any_data() {
    assert_eq!(Apricot::try_deserialize(&[]), Ok(Apricot));
    assert_eq!(Apricot::try_deserialize(&[1, 2, 3]), Ok(Apricot));
    assert_eq!(Apricot::try_deserialize_unchecked(&[]), Ok(Apricot));
    assert_eq!(Apricot::id().to_bytes(), PROGRAM_ID);
    assert_eq!(ApricotUser::owner(), program_id());
    assert_eq!(ApricotPool::owner(), program_id());
}

#[test]
fn account_without_data_is_uninitialized() {
    assert_eq!(ApricotUser::try_deserialize_unchecked(&[]), Err(ApricotError::UninitializedAccount));
    assert_eq!(ApricotPool::try_deserialize_unchecked(&[]), Err(ApricotError::UninitializedAccount));
}

#[test]
fn account_with_too_little_data_is_too_small() {
    assert_eq!(ApricotUser::try_deserialize_unchecked(&[0]), Err(ApricotError::BufferTooSmall));
    assert_eq!(
        ApricotUser::try_deserialize_unchecked(&vec![0; USER_INFO_SIZE - 1]),
        Err(ApricotError::BufferTooSmall)
    );
    assert_eq!(ApricotPool::try_deserialize_unchecked(&[0]), Err(ApricotError::BufferTooSmall));
    assert_eq!(
        ApricotPool::try_deserialize_unchecked(&vec![0; ASSET_POOL_SIZE - 1]),
        Err(ApricotError::BufferTooSmall)
    );
}

#[test]
fn account_with_enough_data_is_read() {
    let mut user = vec![0u8; USER_INFO_SIZE];
    user[0] = 9;
    user[2] = 1;
    let account = ApricotUser::try_deserialize_unchecked(&user).unwrap();
    assert_eq!(account.deref().page_id, 9);
    assert_eq!(account.0.num_assets, 1);
    let mut pool = vec![0u8; ASSET_POOL_SIZE];
    pool[72] = 30;
    let state = ApricotPool::try_deserialize_unchecked(&pool).unwrap();
    assert_eq!(state.deref().pool_id, 30);
}

#[test]
fn first_deposit_of_a_caller_maps_the_accounts() {
    let accounts = AddUserAndDeposit {
        user_wallet: key(1),
        user_pages_stats: key(3),
        users_page: key(4),
        price_summaries: key(9),
        system_program: key(10),
        lend: lend(),
    };
    let ix = apricot_client::anchor::add_user_and_deposit(&accounts, &key(12), 100, 2, 3);
    let expected = add_user_and_deposit_full(
        &key(1), &key(2), &key(3), &key(4), &key(5), &key(6), &key(7), &key(8), &key(9),
        &key(10), &key(11), &key(12), 100, 2, 3,
    );
    assert_eq!(ix, expected);
}

#[test]
fn deposit_of_a_caller_maps_the_accounts() {
    let accounts = Deposit { user_wallet: key(1), price_summaries: key(9), lend: lend() };
    let ix = apricot_client::anchor::deposit(&accounts, &key(12), 100, 2);
    let expected = deposit_full(
        &key(1), &key(2), &key(5), &key(6), &key(7), &key(8), &key(9), &key(11), &key(12), 100, 2,
    );
    assert_eq!(ix, expected);
}

#[test]
fn withdrawal_of_a_caller_maps_the_accounts() {
    let accounts =
        Withdraw { user_wallet: key(1), base_pda: key(10), price_summaries: key(9), lend: lend() };
    for all in [false, true] {
        let ix = apricot_client::anchor::withdraw(&accounts, &key(12), all, 100, 2, 77);
        let expected = withdraw_full(
            &key(1), &key(2), &key(5), &key(6), &key(7), &key(8), &key(9), &key(10), &key(11),
            &key(12), all, 100, 2, 77,
        );
        assert_eq!(ix, expected);
    }
}

#[test]
fn reward_claim_of_a_caller_makes_the_reward_claimable_first() {
    let accounts = ClaimAptRewards {
        user_wallet: key(1),
        base_pda: key(2),
        user_info: key(3),
        user_apt_spl: key(4),
        lm_apt_vault: key(5),
        pool_summaries: key(6),
        price_summaries: key(7),
        token_program: key(8),
    };
    let sequence = apricot_client::anchor::claim_apt_rewards(&accounts);
    assert_eq!(sequence.len(), 2);
    assert_eq!(sequence[0], make_lm_reward_claimable(&key(1)));
    assert_eq!(sequence[1], claim_apt_lm_reward(&key(1), &key(4)));
    assert_eq!(sequence[0].data, vec![0x2a]);
    assert_eq!(sequence[1].data, vec![0x29]);
}

#[test]
fn user_token_account_is_the_associated_account_of_the_mint() {
    let wallet = key(33);
    for pool_id in [0u8, 3, 4, 27, 41] {
        let mint = get_mint_by_pool_id(pool_id).unwrap();
        let account = get_user_token_account(&wallet, pool_id).unwrap();
        assert_eq!(account.to_bytes(), associated(&wallet, &mint));
        assert_ne!(account, wallet);
        assert_ne!(account, mint);
    }
    assert_ne!(get_user_token_account(&wallet, 0), get_user_token_account(&wallet, 1));
    assert_ne!(get_user_token_account(&wallet, 0), get_user_token_account(&key(34), 0));
}

#[test]
fn user_token_account_of_an_unmapped_pool_is_an_error() {
    assert_eq!(get_user_token_account(&key(1), 6), Err(ApricotError::UnknownPool));
    assert_eq!(get_user_token_account(&key(1), 255), Err(ApricotError::UnknownPool));
}

#[test]
fn missing_token_account_is_an_error() {
    assert_eq!(token_account_found(None), Err(ApricotError::InvalidSeeds));
    assert_eq!(token_account_found(Some(key(3))), Ok(key(3)));
}

#[test]
fn known_user_deposits_directly() {
    let ix = deposit_instruction(&key(1), &key(2), 50, 4, None);
    assert_eq!(ix, apricot_client::instructions::deposit(&key(1), &key(2), 50, 4));
    assert_eq!(ix.data[0], 0x11);
}

#[test]
fn new_user_is_created_with_the_deposit() {
    let ix = deposit_instruction(&key(1), &key(2), 50, 4, Some(123));
    assert_eq!(
        ix,
        apricot_client::instructions::add_user_and_deposit(&key(1), &key(2), 50, 4, 123)
    );
    assert_eq!(ix.data[0], 0x10);
}

#[test]
fn client_deposit_uses_the_token_account_of_the_pool() {
    let wallet = key(21);
    let account = get_user_token_account(&wallet, 4).unwrap();
    assert_eq!(
        apricot_client::client::deposit(&wallet, 4, 1000, None),
        Ok(deposit_instruction(&wallet, &account, 1000, 4, None))
    );
    assert_eq!(
        apricot_client::client::deposit(&wallet, 4, 1000, Some(8)),
        Ok(deposit_instruction(&wallet, &account, 1000, 4, Some(8)))
    );
}

#[test]
fn client_deposit_into_an_unmapped_pool_builds_nothing() {
    assert_eq!(apricot_client::client::deposit(&key(1), 6, 1000, None), Err(ApricotError::UnknownPool));
    assert_eq!(
        apricot_client::client::deposit(&key(1), 200, 1000, Some(1)),
        Err(ApricotError::UnknownPool)
    );
}

#[test]
fn withdrawal_of_everything_names_no_amount() {
    let all = withdraw_instruction(&key(1), &key(2), 9, 4, 500, true);
    assert_eq!(all, apricot_client::instructions::withdraw(&key(1), &key(2), true, 0, 4, 9));
    let part = withdraw_instruction(&key(1), &key(2), 9, 4, 500, false);
    assert_eq!(part, apricot_client::instructions::withdraw(&key(1), &key(2), false, 500, 4, 9));
    assert_eq!(all.accounts.len(), part.accounts.len() + 2);
}

#[test]
fn client_withdrawal_reads_the_page_of_the_user() {
    let wallet = key(21);
    let mut data = vec![0u8; USER_INFO_SIZE];
    data[0] = 0x39;
    data[1] = 0x05;
    let account = get_user_token_account(&wallet, 3).unwrap();
    assert_eq!(
        apricot_client::client::withdraw(&wallet, &data, 3, 70, true),
        Ok(withdraw_instruction(&wallet, &account, 0x0539, 3, 70, true))
    );
    assert_eq!(
        apricot_client::client::withdraw(&wallet, &data, 3, 70, false),
        Ok(withdraw_instruction(&wallet, &account, 0x0539, 3, 70, false))
    );
}

#[test]
fn client_withdrawal_fails_on_short_data_and_unmapped_pools() {
    let data = vec![0u8; USER_INFO_SIZE];
    assert_eq!(
        apricot_client::client::withdraw(&key(1), &data[..100], 3, 70, true),
        Err(ApricotError::BufferTooSmall)
    );
    assert_eq!(
        apricot_client::client::withdraw(&key(1), &data[..100], 6, 70, true),
        Err(ApricotError::BufferTooSmall)
    );
    assert_eq!(
        apricot_client::client::withdraw(&key(1), &data, 6, 70, true),
        Err(ApricotError::UnknownPool)
    );
}

#[test]
fn client_claim_pays_into_the_token_account_for_apt() {
    let wallet = key(21);
    let apt = Pubkey::new_from_array(APT_ID);
    let account = Pubkey::new_from_array(associated(&wallet, &apt));
    assert_eq!(claim_lm_apt_reward(&wallet), Ok(claim_apt_lm_reward(&wallet, &account)));
}

#[test]
fn lookup_of_a_user_without_account_is_not_active() {
    assert_eq!(apricot_client::client::is_user_active(None), Ok(false));
    assert_eq!(apricot_client::client::is_user_active(Some(&[1, 0])), Ok(true));
    assert_eq!(apricot_client::client::is_user_active(Some(&[0xff, 0xff, 0])), Ok(false));
    assert_eq!(
        apricot_client::client::is_user_active(Some(&[])),
        Err(ApricotError::BufferTooSmall)
    );
}

#[test]
fn deposit_amount_is_read_from_the_account_data() {
    let mut data = vec![0u8; USER_INFO_SIZE];
    data[3] = 7;
    data[5..21].copy_from_slice(&((1234u128 << 24) + 99).to_le_bytes());
    data[3 + 98] = 7;
    data[3 + 98 + 2..3 + 98 + 18].copy_from_slice(&(5u128 << 24).to_le_bytes());
    assert_eq!(get_user_deposit_amount(&data, 7), Ok(1234));
    assert_eq!(get_user_deposit_amount(&data, 8), Ok(0));
    assert_eq!(get_user_deposit_amount(&data[..1698], 7), Err(ApricotError::BufferTooSmall));
}

#[test]
fn sample_program_deposits_then_borrows() {
    let accounts: Vec<Pubkey> = (1..=14).map(key).collect();
    let sent = process_instruction(&accounts).unwrap();
    assert_eq!(sent.len(), 2);
    assert_eq!(SAMPLE_ACCOUNTS, 14);
    assert_eq!(
        sent[0],
        deposit_full(
            &key(1), &key(2), &key(4), &key(7), &key(9), &key(5), &key(6), &key(13), &key(14),
            SAMPLE_DEPOSIT_AMOUNT, SAMPLE_DEPOSIT_POOL_ID,
        )
    );
    assert_eq!(
        sent[1],
        borrow_full(
            &key(1), &key(3), &key(4), &key(8), &key(10), &key(5), &key(6), &key(11), &key(13),
            &key(14), SAMPLE_BORROW_AMOUNT, SAMPLE_BORROW_POOL_ID,
        )
    );
    assert_eq!(sent[0].data, vec![0x11, 0x00, 0xca, 0x9a, 0x3b, 0, 0, 0, 0, 0]);
    assert_eq!(sent[1].data, vec![0x13, 0x40, 0x42, 0x0f, 0, 0, 0, 0, 0, 1]);
    let mut more = accounts.clone();
    more.push(key(99));
    assert_eq!(process_instruction(&more), Ok(sent));
}

#[test]
fn sample_program_needs_all_its_accounts() {
    let accounts: Vec<Pubkey> = (1..=13).map(key).collect();
    assert_eq!(process_instruction(&accounts), Err(ApricotError::NotEnoughAccountKeys));
    assert_eq!(process_instruction(&[]), Err(ApricotError::NotEnoughAccountKeys));
}

#[test]
fn associated_token_address_is_that_of_the_outside_crate() {
    let wallet = key(77);
    let mint = key(78);
    let found = find_associated_token_address(&wallet, &mint).unwrap();
    assert_eq!(found.to_bytes(), associated(&wallet, &mint));
    assert_ne!(find_associated_token_address(&mint, &wallet), Some(found));
}

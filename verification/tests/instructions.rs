use apricot_client::consts::{
    get_asset_pool_k, get_asset_pool_spl_k, get_base_pda, get_lm_apt_vault_k,
    get_pool_summaries_k, get_price_summaries_k, get_user_info_k, get_user_pages_stats_k,
    get_users_page_k, program_id, SYSTEM_PROGRAM_ID, TOKEN_PROGRAM_ID,
};
use apricot_client::error::ApricotError;
use apricot_client::instructions::{
    add_user_and_deposit, add_user_and_deposit_full, borrow, borrow_full, claim_apt_lm_reward,
    deposit, deposit_full, extern_liquidate, extern_liquidate_full, flag,
    make_lm_reward_claimable, refresh_user, repay, repay_full, withdraw, withdraw_full,
    AccountMeta, AddUserAndDepositParam, BorrowParam, DepositParam, ExternLiquidateParam,
    Instruction, RepayParam, UpdateUserAssetConfigParam, WithdrawParam,
    ADD_USER_AND_DEPOSIT_PARAM_SIZE, BORROW_PARAM_SIZE, DEPOSIT_PARAM_SIZE,
    EXTERN_LIQUIDATE_PARAM_SIZE, REPAY_PARAM_SIZE, UPDATE_USER_ASSET_CONFIG_PARAM_SIZE,
    WITHDRAW_PARAM_SIZE,
};
use apricot_client::pubkey::Pubkey;

fn key(n: u8) -> Pubkey {
    Pubkey::new_from_array([n; 32])
}

fn token_program() -> Pubkey {
    Pubkey::new_from_array(TOKEN_PROGRAM_ID)
}

fn system_program() -> Pubkey {
    Pubkey::new_from_array(SYSTEM_PROGRAM_ID)
}

fn w(pubkey: Pubkey) -> AccountMeta {
    AccountMeta { pubkey, is_signer: false, is_writable: true }
}

fn r(pubkey: Pubkey) -> AccountMeta {
    AccountMeta { pubkey, is_signer: false, is_writable: false }
}

fn signer(pubkey: Pubkey) -> AccountMeta {
    AccountMeta { pubkey, is_signer: true, is_writable: false }
}

fn signer_w(pubkey: Pubkey) -> AccountMeta {
    AccountMeta { pubkey, is_signer: true, is_writable: true }
}

#[test]
fn account_meta_constructors_set_the_flags() {
    assert_eq!(AccountMeta::new(key(1), false), w(key(1)));
    assert_eq!(AccountMeta::new(key(1), true), signer_w(key(1)));
    assert_eq!(AccountMeta::new_readonly(key(1), false), r(key(1)));
    assert_eq!(AccountMeta::new_readonly(key(1), true), signer(key(1)));
}

#[test]
fn flag_is_one_or_zero() {
    assert_eq!(flag(true), 1);
    assert_eq!(flag(false), 0);
}

#[test]
fn parameter_sizes_are_the_packed_sizes() {
    assert_eq!(UPDATE_USER_ASSET_CONFIG_PARAM_SIZE, 2);
    assert_eq!(ADD_USER_AND_DEPOSIT_PARAM_SIZE, 11);
    assert_eq!(DEPOSIT_PARAM_SIZE, 9);
    assert_eq!(WITHDRAW_PARAM_SIZE, 10);
    assert_eq!(BORROW_PARAM_SIZE, 9);
    assert_eq!(REPAY_PARAM_SIZE, 10);
    assert_eq!(EXTERN_LIQUIDATE_PARAM_SIZE, 18);
}

#[test]
fn deposit_param_is_amount_then_pool() {
    let param = DepositParam { amount: 0x0102_0304_0506_0708, pool_id: 9 };
    assert_eq!(param.to_bytes(), vec![8, 7, 6, 5, 4, 3, 2, 1, 9]);
    assert_eq!(DepositParam::from_bytes(&param.to_bytes()), Ok(param));
}

#[test]
fn add_user_and_deposit_param_is_amount_pool_page() {
    let param = AddUserAndDepositParam { amount: 1_000_000_000, pool_id: 4, page_id: 0x1234 };
    assert_eq!(param.to_bytes(), vec![0x00, 0xca, 0x9a, 0x3b, 0, 0, 0, 0, 4, 0x34, 0x12]);
    assert_eq!(AddUserAndDepositParam::from_bytes(&param.to_bytes()), Ok(param));
}

#[test]
fn withdraw_param_is_flag_amount_pool() {
    let param = WithdrawParam { withdraw_all: 1, amount: 258, pool_id: 3 };
    assert_eq!(param.to_bytes(), vec![1, 2, 1, 0, 0, 0, 0, 0, 0, 3]);
    assert_eq!(WithdrawParam::from_bytes(&param.to_bytes()), Ok(param));
}

#[test]
fn borrow_param_is_amount_then_pool() {
    let param = BorrowParam { amount: u64::MAX, pool_id: 255 };
    assert_eq!(param.to_bytes(), vec![255; 9]);
    assert_eq!(BorrowParam::from_bytes(&param.to_bytes()), Ok(param));
}

#[test]
fn repay_param_is_flag_amount_pool() {
    let param = RepayParam { repay_all: 0, amount: 1 << 56, pool_id: 41 };
    assert_eq!(param.to_bytes(), vec![0, 0, 0, 0, 0, 0, 0, 0, 1, 41]);
    assert_eq!(RepayParam::from_bytes(&param.to_bytes()), Ok(param));
}

#[test]
fn extern_liquidate_param_is_collateral_debt_and_their_pools() {
    let param = ExternLiquidateParam {
        min_collateral_amount: 1,
        repaid_borrow_amount: 2,
        collateral_pool_id: 3,
        borrowed_pool_id: 4,
    };
    assert_eq!(
        param.to_bytes(),
        vec![1, 0, 0, 0, 0, 0, 0, 0, 2, 0, 0, 0, 0, 0, 0, 0, 3, 4]
    );
    assert_eq!(ExternLiquidateParam::from_bytes(&param.to_bytes()), Ok(param));
}

#[test]
fn update_user_asset_config_param_is_use_then_pool() {
    let param = UpdateUserAssetConfigParam { use_as_collateral: 1, pool_id: 12 };
    assert_eq!(param.to_bytes(), vec![1, 12]);
    assert_eq!(UpdateUserAssetConfigParam::from_bytes(&param.to_bytes()), Ok(param));
}

#[test]
fn parameters_survive_writing_and_reading() {
    for amount in [0u64, 1, 255, 256, 65535, 1 << 32, u64::MAX - 1, u64::MAX] {
        for pool_id in [0u8, 1, 27, 128, 255] {
            let d = DepositParam { amount, pool_id };
            assert_eq!(DepositParam::from_bytes(&d.to_bytes()), Ok(d));
            let b = BorrowParam { amount, pool_id };
            assert_eq!(BorrowParam::from_bytes(&b.to_bytes()), Ok(b));
            for all in [0u8, 1] {
                let wd = WithdrawParam { withdraw_all: all, amount, pool_id };
                assert_eq!(WithdrawParam::from_bytes(&wd.to_bytes()), Ok(wd));
                let rp = RepayParam { repay_all: all, amount, pool_id };
                assert_eq!(RepayParam::from_bytes(&rp.to_bytes()), Ok(rp));
                let uc = UpdateUserAssetConfigParam { use_as_collateral: all, pool_id };
                assert_eq!(UpdateUserAssetConfigParam::from_bytes(&uc.to_bytes()), Ok(uc));
            }
            for page_id in [0u16, 1, 4999, 65535] {
                let a = AddUserAndDepositParam { amount, pool_id, page_id };
                assert_eq!(AddUserAndDepositParam::from_bytes(&a.to_bytes()), Ok(a));
            }
            let l = ExternLiquidateParam {
                min_collateral_amount: amount,
                repaid_borrow_amount: !amount,
                collateral_pool_id: pool_id,
                borrowed_pool_id: !pool_id,
            };
            assert_eq!(ExternLiquidateParam::from_bytes(&l.to_bytes()), Ok(l));
        }
    }
}

#[test]
fn reading_parameters_ignores_what_follows_them() {
    let mut bytes = DepositParam { amount: 5, pool_id: 6 }.to_bytes();
    bytes.extend_from_slice(&[1, 2, 3]);
    assert_eq!(DepositParam::from_bytes(&bytes), Ok(DepositParam { amount: 5, pool_id: 6 }));
}

#[test]
fn short_parameter_buffer_is_an_error() {
    assert_eq!(DepositParam::from_bytes(&[0; 8]), Err(ApricotError::BufferTooSmall));
    assert_eq!(DepositParam::from_bytes(&[]), Err(ApricotError::BufferTooSmall));
    assert_eq!(AddUserAndDepositParam::from_bytes(&[0; 10]), Err(ApricotError::BufferTooSmall));
    assert_eq!(WithdrawParam::from_bytes(&[0; 9]), Err(ApricotError::BufferTooSmall));
    assert_eq!(BorrowParam::from_bytes(&[0; 8]), Err(ApricotError::BufferTooSmall));
    assert_eq!(RepayParam::from_bytes(&[0; 9]), Err(ApricotError::BufferTooSmall));
    assert_eq!(ExternLiquidateParam::from_bytes(&[0; 17]), Err(ApricotError::BufferTooSmall));
    assert_eq!(
        UpdateUserAssetConfigParam::from_bytes(&[0; 1]),
        Err(ApricotError::BufferTooSmall)
    );
}

#[test]
fn write_appends_to_what_is_there() {
    let mut out = vec![0x11];
    DepositParam { amount: 3, pool_id: 2 }.write(&mut out);
    assert_eq!(out, vec![0x11, 3, 0, 0, 0, 0, 0, 0, 0, 2]);
}

#[test]
fn deposit_full_lists_its_accounts_in_order() {
    let ix = deposit_full(
        &key(1), &key(2), &key(3), &key(4), &key(5), &key(6), &key(7), &key(8), &key(9),
        1000, 3,
    );
    assert_eq!(ix.program_id, key(9));
    assert_eq!(
        ix.accounts,
        vec![signer(key(1)), w(key(2)), w(key(3)), w(key(4)), w(key(5)), w(key(6)), w(key(7)), r(key(8))]
    );
    assert_eq!(ix.data, vec![0x11, 0xe8, 0x03, 0, 0, 0, 0, 0, 0, 3]);
}

#[test]
fn deposit_derives_the_other_accounts() {
    let ix = deposit(&key(1), &key(2), 77, 4);
    let expected = deposit_full(
        &key(1),
        &key(2),
        &get_user_info_k(&key(1)),
        &get_asset_pool_k(4),
        &get_asset_pool_spl_k(&token_program(), 4),
        &get_pool_summaries_k(),
        &get_price_summaries_k(),
        &token_program(),
        &program_id(),
        77,
        4,
    );
    assert_eq!(ix, expected);
    assert_eq!(ix.accounts.len(), 8);
}

#[test]
fn add_user_and_deposit_full_lists_its_accounts_in_order() {
    let ix = add_user_and_deposit_full(
        &key(1), &key(2), &key(3), &key(4), &key(5), &key(6), &key(7), &key(8), &key(9),
        &key(10), &key(11), &key(12), 1, 2, 3,
    );
    assert_eq!(ix.program_id, key(12));
    assert_eq!(
        ix.accounts,
        vec![
            signer_w(key(1)), w(key(2)), w(key(3)), w(key(4)), w(key(5)), w(key(6)), w(key(7)),
            w(key(8)), w(key(9)), r(key(10)), r(key(11)),
        ]
    );
    assert_eq!(ix.data, vec![0x10, 1, 0, 0, 0, 0, 0, 0, 0, 2, 3, 0]);
}

#[test]
fn add_user_and_deposit_derives_the_other_accounts() {
    let ix = add_user_and_deposit(&key(1), &key(2), 500, 0, 17);
    let expected = add_user_and_deposit_full(
        &key(1),
        &key(2),
        &get_user_pages_stats_k(),
        &get_users_page_k(17),
        &get_user_info_k(&key(1)),
        &get_asset_pool_k(0),
        &get_asset_pool_spl_k(&token_program(), 0),
        &get_pool_summaries_k(),
        &get_price_summaries_k(),
        &system_program(),
        &token_program(),
        &program_id(),
        500,
        0,
        17,
    );
    assert_eq!(ix, expected);
}

#[test]
fn partial_withdrawal_has_nine_accounts() {
    let ix = withdraw_full(
        &key(1), &key(2), &key(3), &key(4), &key(5), &key(6), &key(7), &key(8), &key(9),
        &key(10), false, 300, 5, 40,
    );
    assert_eq!(ix.program_id, key(10));
    assert_eq!(
        ix.accounts,
        vec![
            signer(key(1)), w(key(2)), w(key(3)), w(key(4)), w(key(5)), w(key(6)), r(key(7)),
            r(key(8)), r(key(9)),
        ]
    );
    assert_eq!(ix.data, vec![0x12, 0, 0x2c, 0x01, 0, 0, 0, 0, 0, 0, 5]);
}

#[test]
fn withdrawal_of_everything_adds_the_two_page_accounts() {
    let part = withdraw_full(
        &key(1), &key(2), &key(3), &key(4), &key(5), &key(6), &key(7), &key(8), &key(9),
        &key(10), false, 0, 5, 40,
    );
    let all = withdraw_full(
        &key(1), &key(2), &key(3), &key(4), &key(5), &key(6), &key(7), &key(8), &key(9),
        &key(10), true, 0, 5, 40,
    );
    assert_eq!(all.accounts.len(), part.accounts.len() + 2);
    assert_eq!(all.accounts[..2], part.accounts[..2]);
    assert_eq!(all.accounts[2], w(get_user_pages_stats_k()));
    assert_eq!(all.accounts[3], w(get_users_page_k(40)));
    assert_eq!(all.accounts[4..], part.accounts[2..]);
    assert_eq!(all.data, vec![0x1a, 1, 0, 0, 0, 0, 0, 0, 0, 0, 5]);
    assert_eq!(part.data, vec![0x12, 0, 0, 0, 0, 0, 0, 0, 0, 0, 5]);
}

#[test]
fn withdraw_derives_the_other_accounts() {
    for all in [false, true] {
        let ix = withdraw(&key(1), &key(2), all, 9, 3, 21);
        let expected = withdraw_full(
            &key(1),
            &key(2),
            &get_user_info_k(&key(1)),
            &get_asset_pool_k(3),
            &get_asset_pool_spl_k(&token_program(), 3),
            &get_pool_summaries_k(),
            &get_price_summaries_k(),
            &get_base_pda(),
            &token_program(),
            &program_id(),
            all,
            9,
            3,
            21,
        );
        assert_eq!(ix, expected);
    }
}

#[test]
fn borrow_full_lists_its_accounts_in_order() {
    let ix = borrow_full(
        &key(1), &key(2), &key(3), &key(4), &key(5), &key(6), &key(7), &key(8), &key(9),
        &key(10), 1_000_000, 1,
    );
    assert_eq!(ix.program_id, key(10));
    assert_eq!(
        ix.accounts,
        vec![
            signer(key(1)), w(key(2)), w(key(3)), w(key(4)), w(key(5)), w(key(6)), r(key(7)),
            r(key(8)), r(key(9)),
        ]
    );
    assert_eq!(ix.data, vec![0x13, 0x40, 0x42, 0x0f, 0, 0, 0, 0, 0, 1]);
}

#[test]
fn borrow_derives_the_other_accounts() {
    let ix = borrow(&key(1), &key(2), 12, 1);
    let expected = borrow_full(
        &key(1),
        &key(2),
        &get_user_info_k(&key(1)),
        &get_asset_pool_k(1),
        &get_asset_pool_spl_k(&token_program(), 1),
        &get_pool_summaries_k(),
        &get_price_summaries_k(),
        &get_base_pda(),
        &token_program(),
        &program_id(),
        12,
        1,
    );
    assert_eq!(ix, expected);
}

#[test]
fn repay_full_lists_its_accounts_in_order() {
    let ix = repay_full(
        &key(1), &key(2), &key(3), &key(4), &key(5), &key(6), &key(7), &key(8), true, 4, 2,
    );
    assert_eq!(ix.program_id, key(8));
    assert_eq!(
        ix.accounts,
        vec![signer(key(1)), w(key(2)), w(key(3)), w(key(4)), w(key(5)), w(key(6)), r(key(7))]
    );
    assert_eq!(ix.data, vec![0x14, 1, 4, 0, 0, 0, 0, 0, 0, 0, 2]);
    let partial = repay_full(
        &key(1), &key(2), &key(3), &key(4), &key(5), &key(6), &key(7), &key(8), false, 4, 2,
    );
    assert_eq!(partial.data, vec![0x14, 0, 4, 0, 0, 0, 0, 0, 0, 0, 2]);
    assert_eq!(partial.accounts, ix.accounts);
}

#[test]
fn repay_derives_the_other_accounts() {
    let ix = repay(&key(1), &key(2), false, 12, 30);
    let expected = repay_full(
        &key(1),
        &key(2),
        &get_user_info_k(&key(1)),
        &get_asset_pool_k(30),
        &get_asset_pool_spl_k(&token_program(), 30),
        &get_pool_summaries_k(),
        &token_program(),
        &program_id(),
        false,
        12,
        30,
    );
    assert_eq!(ix, expected);
}

#[test]
fn refresh_user_needs_no_signer() {
    let ix = refresh_user(&key(1));
    assert_eq!(ix.program_id, program_id());
    assert_eq!(
        ix.accounts,
        vec![r(key(1)), w(get_user_info_k(&key(1))), r(get_pool_summaries_k())]
    );
    assert_eq!(ix.data, vec![0x0a]);
}

#[test]
fn extern_liquidate_full_lists_its_accounts_in_order() {
    let ix = extern_liquidate_full(
        &key(1), &key(2), &key(3), &key(4), &key(5), &key(6), &key(7), &key(8), &key(9),
        &key(10), &key(11), &key(12), &key(13), 0x0201, 0x0403, 5, 6,
    );
    assert_eq!(ix.program_id, key(13));
    assert_eq!(
        ix.accounts,
        vec![
            r(key(1)), signer(key(2)), w(key(3)), r(key(4)), w(key(5)), w(key(6)), w(key(7)),
            w(key(8)), w(key(9)), w(key(10)), w(key(11)), r(key(12)),
        ]
    );
    assert_eq!(
        ix.data,
        vec![0x15, 3, 4, 0, 0, 0, 0, 0, 0, 1, 2, 0, 0, 0, 0, 0, 0, 6, 5]
    );
}

#[test]
fn extern_liquidate_derives_the_other_accounts() {
    let ix = extern_liquidate(&key(1), &key(2), &key(3), &key(4), 10, 20, 1, 0);
    let expected = extern_liquidate_full(
        &key(1),
        &key(2),
        &get_user_info_k(&key(1)),
        &get_base_pda(),
        &key(3),
        &key(4),
        &get_asset_pool_k(0),
        &get_asset_pool_spl_k(&token_program(), 0),
        &get_asset_pool_k(1),
        &get_asset_pool_spl_k(&token_program(), 1),
        &get_pool_summaries_k(),
        &token_program(),
        &program_id(),
        10,
        20,
        1,
        0,
    );
    assert_eq!(ix, expected);
}

#[test]
fn make_lm_reward_claimable_names_the_wallet_twice() {
    let ix = make_lm_reward_claimable(&key(1));
    assert_eq!(ix.program_id, program_id());
    assert_eq!(
        ix.accounts,
        vec![signer(key(1)), r(key(1)), w(get_user_info_k(&key(1))), w(get_pool_summaries_k())]
    );
    assert_eq!(ix.data, vec![0x2a]);
}

#[test]
fn claim_apt_lm_reward_lists_its_accounts_in_order() {
    let ix = claim_apt_lm_reward(&key(1), &key(2));
    assert_eq!(ix.program_id, program_id());
    assert_eq!(
        ix.accounts,
        vec![
            r(get_base_pda()),
            signer(key(1)),
            w(get_user_info_k(&key(1))),
            w(key(2)),
            w(get_lm_apt_vault_k()),
            w(get_pool_summaries_k()),
            r(get_price_summaries_k()),
            r(token_program()),
        ]
    );
    assert_eq!(ix.data, vec![0x29]);
}

#[test]
fn instruction_can_be_rebuilt_field_by_field() {
    let ix = refresh_user(&key(5));
    let same = Instruction {
        program_id: ix.program_id,
        accounts: ix.accounts.clone(),
        data: ix.data.clone(),
    };
    assert_eq!(ix, same);
}

#[test]
fn parameters_are_written_as_they_were_read() {
    let bytes: Vec<u8> = (100..130).collect();
    assert_eq!(DepositParam::from_bytes(&bytes).unwrap().to_bytes(), bytes[..9].to_vec());
    assert_eq!(BorrowParam::from_bytes(&bytes).unwrap().to_bytes(), bytes[..9].to_vec());
    assert_eq!(WithdrawParam::from_bytes(&bytes).unwrap().to_bytes(), bytes[..10].to_vec());
    assert_eq!(RepayParam::from_bytes(&bytes).unwrap().to_bytes(), bytes[..10].to_vec());
    assert_eq!(
        AddUserAndDepositParam::from_bytes(&bytes).unwrap().to_bytes(),
        bytes[..11].to_vec()
    );
    assert_eq!(
        ExternLiquidateParam::from_bytes(&bytes).unwrap().to_bytes(),
        bytes[..18].to_vec()
    );
    assert_eq!(
        UpdateUserAssetConfigParam::from_bytes(&bytes).unwrap().to_bytes(),
        bytes[..2].to_vec()
    );
}

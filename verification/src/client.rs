//! What the client of a wallet sends to the lending program: for each request
//! of the user, the instruction that carries it, built from the user's wallet
//! and from what the client has read of the user's account.

use crate::config::{get_mint_by_pool_id, mint_of_pool, APT_ID};
use crate::consts::{
    associated_token_program_id, token_program_id, ASSOCIATED_TOKEN_PROGRAM_ID, TOKEN_PROGRAM_ID,
};
use crate::error::ApricotError;
use crate::instructions;
use crate::instructions::{
    add_user_and_deposit, add_user_and_deposit_view, claim_apt_lm_reward,
    claim_apt_lm_reward_view, deposit_view, withdraw_view, Instruction, InstructionView,
};
use crate::pubkey::{address_bytes, find_program_address, program_address, Pubkey};
use crate::state::{first_position, UserInfo, USER_INFO_SIZE};
use crate::utils::{UserInfoHeader, INVALID_PAGE_ID, USER_INFO_HEADER_SIZE};
use vstd::prelude::*;

verus! {

/// The address of the token account that is associated with a wallet and a
/// mint under the token program, if the search for one succeeds: the address
/// that the program of associated token accounts derives from the wallet, the
/// token program and the mint.
pub open spec fn associated_token_address(wallet: Seq<u8>, mint: Seq<u8>) -> Option<Seq<u8>> {
    program_address(wallet, TOKEN_PROGRAM_ID@, mint, ASSOCIATED_TOKEN_PROGRAM_ID@)
}

/// Searches the address of the token account that is associated with `wallet`
/// and `mint` under the token program.
pub fn find_associated_token_address(wallet: &Pubkey, mint: &Pubkey) -> (found: Option<Pubkey>)
    ensures
        address_bytes(found) == associated_token_address(wallet@, mint@),
{
    find_program_address(wallet, &token_program_id(), mint, &associated_token_program_id())
}

/// The user's token account for a mint, given the outcome of the search for
/// its address: an address that was not found is the error `InvalidSeeds`.
pub fn token_account_found(found: Option<Pubkey>) -> (account: Result<Pubkey, ApricotError>)
    ensures
        match found {
            Some(key) => account matches Ok(a) && a == key,
            None => account matches Err(e) && e == ApricotError::InvalidSeeds,
        },
{
    match found {
        Some(key) => Ok(key),
        None => Err(ApricotError::InvalidSeeds),
    }
}

/// The address of the token account of the wallet for the token of the pool:
/// `UnknownPool` if the catalogue holds no such pool, `InvalidSeeds` if no
/// address is found for the wallet and the pool's mint.
pub open spec fn user_token_account_of(wallet: Seq<u8>, pool_id: u8) -> Result<
    Seq<u8>,
    ApricotError,
> {
    match mint_of_pool(pool_id) {
        None => Err(ApricotError::UnknownPool),
        Some(mint) => match associated_token_address(wallet, mint) {
            None => Err(ApricotError::InvalidSeeds),
            Some(account) => Ok(account),
        },
    }
}

/// The outcome of a lookup of an address, with the address taken by its bytes.
pub open spec fn key_bytes(outcome: Result<Pubkey, ApricotError>) -> Result<Seq<u8>, ApricotError> {
    match outcome {
        Ok(key) => Ok(key@),
        Err(e) => Err(e),
    }
}

/// The outcome of building an instruction, with the instruction taken by its
/// view.
pub open spec fn built(outcome: Result<Instruction, ApricotError>) -> Result<
    InstructionView,
    ApricotError,
> {
    match outcome {
        Ok(ix) => Ok(ix@),
        Err(e) => Err(e),
    }
}

/// The token account of the user `user_wallet` for the token of pool
/// `pool_id`. Fails with `UnknownPool` when the catalogue holds no such pool.
pub fn get_user_token_account(user_wallet: &Pubkey, pool_id: u8) -> (account: Result<
    Pubkey,
    ApricotError,
>)
    ensures
        key_bytes(account) == user_token_account_of(user_wallet@, pool_id),
{
    match get_mint_by_pool_id(pool_id) {
        Ok(mint) => token_account_found(find_associated_token_address(user_wallet, &mint)),
        Err(e) => Err(e),
    }
}

/// Whether the user has an account in use, from what a lookup of the account
/// returned: no account means no, and an account is in use unless its page
/// number is `INVALID_PAGE_ID`. Fails on data that is too short to hold the
/// head of an account.
pub fn is_user_active(account_data: Option<&[u8]>) -> (active: Result<bool, ApricotError>)
    ensures
        match account_data {
            None => active matches Ok(in_use) && !in_use,
            Some(data) => if data@.len() >= USER_INFO_HEADER_SIZE {
                active matches Ok(in_use) && in_use == (UserInfoHeader::spec_from_bytes(
                    data@,
                ).page_id != INVALID_PAGE_ID)
            } else {
                active matches Err(e) && e == ApricotError::BufferTooSmall
            },
        },
{
    match account_data {
        None => Ok(false),
        Some(data) => crate::utils::is_user_active(data),
    }
}

/// The instruction of a deposit by a user who may be new.
pub open spec fn deposit_instruction_view(
    user_wallet: Seq<u8>,
    user_token_account: Seq<u8>,
    amount: u64,
    pool_id: u8,
    new_user_page: Option<u16>,
) -> InstructionView {
    match new_user_page {
        None => deposit_view(user_wallet, user_token_account, amount, pool_id),
        Some(page_id) => add_user_and_deposit_view(
            user_wallet,
            user_token_account,
            amount,
            pool_id,
            page_id,
        ),
    }
}

/// The deposit of `amount` into pool `pool_id` from the user's token account.
///
/// A user whose account is in use deposits directly: `new_user_page` is
/// `None`. For a new user, `new_user_page` is the page on which the account is
/// to be entered, and the instruction creates the account with the deposit.
pub fn deposit_instruction(
    user_wallet: &Pubkey,
    user_token_account: &Pubkey,
    amount: u64,
    pool_id: u8,
    new_user_page: Option<u16>,
) -> (ix: Instruction)
    ensures
        ix@ == deposit_instruction_view(
            user_wallet@,
            user_token_account@,
            amount,
            pool_id,
            new_user_page,
        ),
{
    match new_user_page {
        None => instructions::deposit(user_wallet, user_token_account, amount, pool_id),
        Some(page_id) => add_user_and_deposit(
            user_wallet,
            user_token_account,
            amount,
            pool_id,
            page_id,
        ),
    }
}

/// What `deposit` returns.
pub open spec fn spec_deposit(
    user_wallet: Seq<u8>,
    pool_id: u8,
    amount: u64,
    new_user_page: Option<u16>,
) -> Result<InstructionView, ApricotError> {
    match user_token_account_of(user_wallet, pool_id) {
        Err(e) => Err(e),
        Ok(account) => Ok(
            deposit_instruction_view(user_wallet, account, amount, pool_id, new_user_page),
        ),
    }
}

/// The deposit of `amount` into pool `pool_id` by the user `user_wallet`, from
/// the user's token account for the pool's token; see `deposit_instruction`
/// for `new_user_page`.
///
/// Nothing is built for a pool that the catalogue does not hold: the call
/// fails with `UnknownPool`.
pub fn deposit(user_wallet: &Pubkey, pool_id: u8, amount: u64, new_user_page: Option<u16>) -> (ix:
    Result<Instruction, ApricotError>)
    ensures
        built(ix) == spec_deposit(user_wallet@, pool_id, amount, new_user_page),
        mint_of_pool(pool_id) is None ==> (ix matches Err(e) && e == ApricotError::UnknownPool),
{
    match get_user_token_account(user_wallet, pool_id) {
        Ok(account) => Ok(
            deposit_instruction(user_wallet, &account, amount, pool_id, new_user_page),
        ),
        Err(e) => Err(e),
    }
}

/// The amount that a withdrawal names: none when everything is withdrawn.
pub open spec fn withdraw_amount(withdraw_all: bool, amount: u64) -> u64 {
    if withdraw_all {
        0
    } else {
        amount
    }
}

/// The withdrawal from pool `pool_id` into the user's token account, of
/// everything if `withdraw_all` and else of `amount`, for the user whose
/// account is entered on page `page_id`. A withdrawal of everything names no
/// amount.
pub fn withdraw_instruction(
    user_wallet: &Pubkey,
    user_token_account: &Pubkey,
    page_id: u16,
    pool_id: u8,
    amount: u64,
    withdraw_all: bool,
) -> (ix: Instruction)
    ensures
        ix@ == withdraw_view(
            user_wallet@,
            user_token_account@,
            withdraw_all,
            withdraw_amount(withdraw_all, amount),
            pool_id,
            page_id,
        ),
{
    let withdraw_amount = if withdraw_all {
        0
    } else {
        amount
    };
    instructions::withdraw(
        user_wallet,
        user_token_account,
        withdraw_all,
        withdraw_amount,
        pool_id,
        page_id,
    )
}

/// What `withdraw` returns.
pub open spec fn spec_withdraw(
    user_wallet: Seq<u8>,
    user_info_data: Seq<u8>,
    pool_id: u8,
    amount: u64,
    withdraw_all: bool,
) -> Result<InstructionView, ApricotError> {
    if user_info_data.len() < USER_INFO_SIZE {
        Err(ApricotError::BufferTooSmall)
    } else {
        match user_token_account_of(user_wallet, pool_id) {
            Err(e) => Err(e),
            Ok(account) => Ok(
                withdraw_view(
                    user_wallet,
                    account,
                    withdraw_all,
                    withdraw_amount(withdraw_all, amount),
                    pool_id,
                    UserInfo::spec_from_bytes(user_info_data).page_id,
                ),
            ),
        }
    }
}

/// The withdrawal from pool `pool_id` by the user `user_wallet`, whose account
/// holds `user_info_data`, into the user's token account for the pool's token:
/// of everything if `withdraw_all`, else of `amount`.
///
/// Fails with `BufferTooSmall` on data that is too short for a user's account,
/// and else with `UnknownPool` for a pool that the catalogue does not hold.
pub fn withdraw(
    user_wallet: &Pubkey,
    user_info_data: &[u8],
    pool_id: u8,
    amount: u64,
    withdraw_all: bool,
) -> (ix: Result<Instruction, ApricotError>)
    ensures
        built(ix) == spec_withdraw(user_wallet@, user_info_data@, pool_id, amount, withdraw_all),
        user_info_data@.len() >= USER_INFO_SIZE && mint_of_pool(pool_id) is None ==> (
        ix matches Err(e) && e == ApricotError::UnknownPool),
{
    let user_info = match UserInfo::from_bytes(user_info_data) {
        Ok(info) => info,
        Err(e) => {
            return Err(e);
        },
    };
    match get_user_token_account(user_wallet, pool_id) {
        Ok(account) => Ok(
            withdraw_instruction(
                user_wallet,
                &account,
                user_info.page_id,
                pool_id,
                amount,
                withdraw_all,
            ),
        ),
        Err(e) => Err(e),
    }
}

/// What `claim_lm_apt_reward` returns.
pub open spec fn spec_claim_lm_apt_reward(user_wallet: Seq<u8>) -> Result<
    InstructionView,
    ApricotError,
> {
    match associated_token_address(user_wallet, APT_ID@) {
        None => Err(ApricotError::InvalidSeeds),
        Some(account) => Ok(claim_apt_lm_reward_view(user_wallet, account)),
    }
}

/// The claim of the liquidity-mining reward of the user `user_wallet`, paid
/// into the user's token account for APT.
pub fn claim_lm_apt_reward(user_wallet: &Pubkey) -> (ix: Result<Instruction, ApricotError>)
    ensures
        built(ix) == spec_claim_lm_apt_reward(user_wallet@),
{
    let apt = Pubkey::new_from_array(APT_ID);
    match token_account_found(find_associated_token_address(user_wallet, &apt)) {
        Ok(account) => Ok(claim_apt_lm_reward(user_wallet, &account)),
        Err(e) => Err(e),
    }
}

/// What the user whose account holds `user_info_data` has deposited in pool
/// `pool_id`, in whole native units: the deposit of the first position in that
/// pool, and 0 if there is none. Fails on data that is too short for a user's
/// account.
pub fn get_user_deposit_amount(user_info_data: &[u8], pool_id: u8) -> (native: Result<
    u64,
    ApricotError,
>)
    ensures
        user_info_data@.len() < USER_INFO_SIZE ==> (native matches Err(e) && e
            == ApricotError::BufferTooSmall),
        user_info_data@.len() >= USER_INFO_SIZE ==> (native matches Ok(amount) && amount
            == match first_position(
            UserInfo::spec_from_bytes(user_info_data@).user_asset_info,
            pool_id,
        ) {
            Some(position) => position.deposit_amount.spec_to_native_amount(),
            None => 0,
        }),
{
    match UserInfo::from_bytes(user_info_data) {
        Ok(info) => Ok(info.deposit_native_amount(pool_id)),
        Err(e) => Err(e),
    }
}

} // verus!

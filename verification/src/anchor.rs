//! The lending program as another program calls it: the accounts of a call
//! gathered in one record, the instruction that the call sends, and the
//! program's accounts as the caller reads them.

use crate::consts::{program_id, PROGRAM_ID};
use crate::error::ApricotError;
use crate::instructions::{
    add_user_and_deposit_full, add_user_and_deposit_full_view, claim_apt_lm_reward,
    claim_apt_lm_reward_view, deposit_full, deposit_full_view, make_lm_reward_claimable,
    make_lm_reward_claimable_view, withdraw_full, withdraw_full_view, Instruction,
};
use crate::pubkey::Pubkey;
use crate::state::{AssetPool, UserInfo, ASSET_POOL_SIZE, USER_INFO_SIZE};
use vstd::prelude::*;

verus! {

/// What the creation of a user's account costs in rent, in lamports.
pub const USER_RENT_FEE: u64 = 16_439_520;

/// The lending program itself, as an account of a call.
#[derive(Clone, Copy, Debug, PartialEq, Eq)]
pub struct Apricot;

impl Apricot {
    /// The program account holds nothing that is read: any data is accepted.
    pub fn try_deserialize_unchecked(_buf: &[u8]) -> (program: Result<Apricot, ApricotError>)
        ensures
            program == Ok::<Apricot, ApricotError>(Apricot),
    {
        Ok(Apricot)
    }

    /// The program account holds nothing that is read: any data is accepted.
    pub fn try_deserialize(buf: &[u8]) -> (program: Result<Apricot, ApricotError>)
        ensures
            program == Ok::<Apricot, ApricotError>(Apricot),
    {
        Apricot::try_deserialize_unchecked(buf)
    }

    /// The address of the lending program.
    pub fn id() -> (key: Pubkey)
        ensures
            key@ == PROGRAM_ID@,
    {
        program_id()
    }
}

/// A user's account of the lending program, as a caller reads it.
#[derive(Clone, Copy, Debug, PartialEq, Eq)]
pub struct ApricotUser(pub UserInfo);

impl ApricotUser {
    /// Reads a user's account from the data of the account.
    ///
    /// An account without data has not been created yet, which is
    /// `UninitializedAccount`; data that is too short for a user's account is
    /// `BufferTooSmall`.
    pub fn try_deserialize_unchecked(buf: &[u8]) -> (user: Result<ApricotUser, ApricotError>)
        ensures
            buf@.len() == 0 ==> (user matches Err(e) && e == ApricotError::UninitializedAccount),
            0 < buf@.len() < USER_INFO_SIZE ==> (user matches Err(e) && e
                == ApricotError::BufferTooSmall),
            buf@.len() >= USER_INFO_SIZE ==> (user matches Ok(account) && account.0@
                == UserInfo::spec_from_bytes(buf@)),
    {
        if buf.len() > 0 {
            match UserInfo::from_bytes(buf) {
                Ok(info) => Ok(ApricotUser(info)),
                Err(e) => Err(e),
            }
        } else {
            Err(ApricotError::UninitializedAccount)
        }
    }

    /// The program that owns the account.
    pub fn owner() -> (key: Pubkey)
        ensures
            key@ == PROGRAM_ID@,
    {
        program_id()
    }

    /// The account itself.
    pub fn deref(&self) -> (info: &UserInfo)
        ensures
            *info == self.0,
    {
        &self.0
    }
}

/// The state of a pool of the lending program, as a caller reads it.
#[derive(Clone, Copy, Debug, PartialEq, Eq)]
pub struct ApricotPool(pub AssetPool);

impl ApricotPool {
    /// Reads the state of a pool from the data of the account.
    ///
    /// An account without data has not been created yet, which is
    /// `UninitializedAccount`; data that is too short for a pool is
    /// `BufferTooSmall`.
    pub fn try_deserialize_unchecked(buf: &[u8]) -> (pool: Result<ApricotPool, ApricotError>)
        ensures
            buf@.len() == 0 ==> (pool matches Err(e) && e == ApricotError::UninitializedAccount),
            0 < buf@.len() < ASSET_POOL_SIZE ==> (pool matches Err(e) && e
                == ApricotError::BufferTooSmall),
            buf@.len() >= ASSET_POOL_SIZE ==> (pool matches Ok(account) && account.0@
                == AssetPool::spec_from_bytes(buf@)),
    {
        if buf.len() > 0 {
            match AssetPool::from_bytes(buf) {
                Ok(state) => Ok(ApricotPool(state)),
                Err(e) => Err(e),
            }
        } else {
            Err(ApricotError::UninitializedAccount)
        }
    }

    /// The program that owns the account.
    pub fn owner() -> (key: Pubkey)
        ensures
            key@ == PROGRAM_ID@,
    {
        program_id()
    }

    /// The state itself.
    pub fn deref(&self) -> (state: &AssetPool)
        ensures
            *state == self.0,
    {
        &self.0
    }
}

/// The accounts that every call about a user's position in a pool names.
#[derive(Clone, Copy, Debug, PartialEq, Eq)]
pub struct Lend {
    /// The user's token account; written.
    pub user_spl: Pubkey,
    /// The user's account with the program; written.
    pub user_info: Pubkey,
    /// The state of the pool; written.
    pub asset_pool: Pubkey,
    /// The token account of the pool; written.
    pub asset_pool_spl: Pubkey,
    /// The summary of every pool; written.
    pub pool_summaries: Pubkey,
    /// The token program.
    pub token_program: Pubkey,
}

/// The accounts of a first deposit.
#[derive(Clone, Copy, Debug, PartialEq, Eq)]
pub struct AddUserAndDeposit {
    /// The user, who signs and pays; written.
    pub user_wallet: Pubkey,
    /// The count of free slots; written.
    pub user_pages_stats: Pubkey,
    /// The page on which the user is entered; written.
    pub users_page: Pubkey,
    /// The summary of every price; written.
    pub price_summaries: Pubkey,
    /// The system program.
    pub system_program: Pubkey,
    pub lend: Lend,
}

/// The accounts of a deposit.
#[derive(Clone, Copy, Debug, PartialEq, Eq)]
pub struct Deposit {
    /// The user, who signs.
    pub user_wallet: Pubkey,
    /// The summary of every price; written.
    pub price_summaries: Pubkey,
    pub lend: Lend,
}

/// The accounts of a withdrawal.
#[derive(Clone, Copy, Debug, PartialEq, Eq)]
pub struct Withdraw {
    /// The user, who signs.
    pub user_wallet: Pubkey,
    /// The base address of the program.
    pub base_pda: Pubkey,
    /// The summary of every price.
    pub price_summaries: Pubkey,
    pub lend: Lend,
}

/// The accounts of a claim of liquidity-mining rewards.
#[derive(Clone, Copy, Debug, PartialEq, Eq)]
pub struct ClaimAptRewards {
    /// The user, who signs.
    pub user_wallet: Pubkey,
    /// The base address of the program.
    pub base_pda: Pubkey,
    /// The user's account with the program; written.
    pub user_info: Pubkey,
    /// The user's token account for the reward; written.
    pub user_apt_spl: Pubkey,
    /// The vault from which rewards are paid; written.
    pub lm_apt_vault: Pubkey,
    /// The summary of every pool; written.
    pub pool_summaries: Pubkey,
    /// The summary of every price.
    pub price_summaries: Pubkey,
    /// The token program.
    pub token_program: Pubkey,
}

/// The instruction by which a program makes a first deposit for a user: the
/// creation of the user's account on page `page_id` and a deposit of `amount`
/// into pool `pool_id`, sent to `program` with the given accounts.
pub fn add_user_and_deposit(
    accounts: &AddUserAndDeposit,
    program: &Pubkey,
    amount: u64,
    pool_id: u8,
    page_id: u16,
) -> (ix: Instruction)
    ensures
        ix@ == add_user_and_deposit_full_view(
            accounts.user_wallet@,
            accounts.lend.user_spl@,
            accounts.user_pages_stats@,
            accounts.users_page@,
            accounts.lend.user_info@,
            accounts.lend.asset_pool@,
            accounts.lend.asset_pool_spl@,
            accounts.lend.pool_summaries@,
            accounts.price_summaries@,
            accounts.system_program@,
            accounts.lend.token_program@,
            program@,
            amount,
            pool_id,
            page_id,
        ),
{
    add_user_and_deposit_full(
        &accounts.user_wallet,
        &accounts.lend.user_spl,
        &accounts.user_pages_stats,
        &accounts.users_page,
        &accounts.lend.user_info,
        &accounts.lend.asset_pool,
        &accounts.lend.asset_pool_spl,
        &accounts.lend.pool_summaries,
        &accounts.price_summaries,
        &accounts.system_program,
        &accounts.lend.token_program,
        program,
        amount,
        pool_id,
        page_id,
    )
}

/// The instruction by which a program deposits `amount` into pool `pool_id`
/// for a user, sent to `program` with the given accounts.
pub fn deposit(accounts: &Deposit, program: &Pubkey, amount: u64, pool_id: u8) -> (ix: Instruction)
    ensures
        ix@ == deposit_full_view(
            accounts.user_wallet@,
            accounts.lend.user_spl@,
            accounts.lend.user_info@,
            accounts.lend.asset_pool@,
            accounts.lend.asset_pool_spl@,
            accounts.lend.pool_summaries@,
            accounts.price_summaries@,
            accounts.lend.token_program@,
            program@,
            amount,
            pool_id,
        ),
{
    deposit_full(
        &accounts.user_wallet,
        &accounts.lend.user_spl,
        &accounts.lend.user_info,
        &accounts.lend.asset_pool,
        &accounts.lend.asset_pool_spl,
        &accounts.lend.pool_summaries,
        &accounts.price_summaries,
        &accounts.lend.token_program,
        program,
        amount,
        pool_id,
    )
}

/// The instruction by which a program withdraws from pool `pool_id` for a
/// user, everything if `withdraw_all` and else `amount`, sent to `program`
/// with the given accounts. `page_id` is the page on which the user is entered.
pub fn withdraw(
    accounts: &Withdraw,
    program: &Pubkey,
    withdraw_all: bool,
    amount: u64,
    pool_id: u8,
    page_id: u16,
) -> (ix: Instruction)
    ensures
        ix@ == withdraw_full_view(
            accounts.user_wallet@,
            accounts.lend.user_spl@,
            accounts.lend.user_info@,
            accounts.lend.asset_pool@,
            accounts.lend.asset_pool_spl@,
            accounts.lend.pool_summaries@,
            accounts.price_summaries@,
            accounts.base_pda@,
            accounts.lend.token_program@,
            program@,
            withdraw_all,
            amount,
            pool_id,
            page_id,
        ),
{
    withdraw_full(
        &accounts.user_wallet,
        &accounts.lend.user_spl,
        &accounts.lend.user_info,
        &accounts.lend.asset_pool,
        &accounts.lend.asset_pool_spl,
        &accounts.lend.pool_summaries,
        &accounts.price_summaries,
        &accounts.base_pda,
        &accounts.lend.token_program,
        program,
        withdraw_all,
        amount,
        pool_id,
        page_id,
    )
}

/// The two instructions by which a program claims a user's liquidity-mining
/// reward, in the order in which they must be sent: first the one that makes
/// the vested reward claimable, then the one that pays it out. Both go to the
/// lending program, and both name the program's own accounts and those derived
/// from the user's wallet; of `accounts`, only the wallet and the token
/// account for the reward enter.
pub fn claim_apt_rewards(accounts: &ClaimAptRewards) -> (sequence: Vec<Instruction>)
    ensures
        sequence@.len() == 2,
        sequence@[0]@ == make_lm_reward_claimable_view(accounts.user_wallet@),
        sequence@[1]@ == claim_apt_lm_reward_view(accounts.user_wallet@, accounts.user_apt_spl@),
{
    let make_claimable = make_lm_reward_claimable(&accounts.user_wallet);
    let claim = claim_apt_lm_reward(&accounts.user_wallet, &accounts.user_apt_spl);
    let mut sequence: Vec<Instruction> = Vec::new();
    sequence.push(make_claimable);
    sequence.push(claim);
    sequence
}

} // verus!

//! A sample of a program that uses the lending program: it deposits into one
//! pool and borrows from another on behalf of a user.

use crate::error::ApricotError;
use crate::instructions::{
    borrow_full, borrow_full_view, deposit_full, deposit_full_view, Instruction, InstructionView,
};
use crate::pubkey::Pubkey;
use vstd::prelude::*;

verus! {

/// Number of accounts that the sample program is given.
pub const SAMPLE_ACCOUNTS: usize = 14;

/// The pool into which the sample deposits: BTC.
pub const SAMPLE_DEPOSIT_POOL_ID: u8 = 0;

/// How much the sample deposits, in native units.
pub const SAMPLE_DEPOSIT_AMOUNT: u64 = 1000000000;

/// The pool from which the sample borrows: ETH.
pub const SAMPLE_BORROW_POOL_ID: u8 = 1;

/// How much the sample borrows, in native units.
pub const SAMPLE_BORROW_AMOUNT: u64 = 1000000;

/// The deposit that the sample makes with the accounts that it was given.
pub open spec fn sample_deposit_view(accounts: Seq<Pubkey>) -> InstructionView {
    deposit_full_view(
        accounts[0]@,
        accounts[1]@,
        accounts[3]@,
        accounts[6]@,
        accounts[8]@,
        accounts[4]@,
        accounts[5]@,
        accounts[12]@,
        accounts[13]@,
        SAMPLE_DEPOSIT_AMOUNT,
        SAMPLE_DEPOSIT_POOL_ID,
    )
}

/// The loan that the sample takes with the accounts that it was given.
pub open spec fn sample_borrow_view(accounts: Seq<Pubkey>) -> InstructionView {
    borrow_full_view(
        accounts[0]@,
        accounts[2]@,
        accounts[3]@,
        accounts[7]@,
        accounts[9]@,
        accounts[4]@,
        accounts[5]@,
        accounts[10]@,
        accounts[12]@,
        accounts[13]@,
        SAMPLE_BORROW_AMOUNT,
        SAMPLE_BORROW_POOL_ID,
    )
}

/// The two instructions that the sample program sends, in their order: a
/// deposit of `SAMPLE_DEPOSIT_AMOUNT` into the pool `SAMPLE_DEPOSIT_POOL_ID`,
/// then a loan of `SAMPLE_BORROW_AMOUNT` from the pool `SAMPLE_BORROW_POOL_ID`.
///
/// The program is given its accounts in this order: the user's wallet, the
/// user's token accounts for the first and for the second pool, the user's
/// account with the lending program, the summaries of the pools and of the
/// prices, the states of the first and of the second pool, their token
/// accounts, the base address, the system program, the token program and the
/// lending program. With fewer than `SAMPLE_ACCOUNTS` accounts nothing is
/// built; accounts beyond them are not looked at.
pub fn process_instruction(accounts: &[Pubkey]) -> (sequence: Result<
    Vec<Instruction>,
    ApricotError,
>)
    ensures
        accounts@.len() < SAMPLE_ACCOUNTS ==> (sequence matches Err(e) && e
            == ApricotError::NotEnoughAccountKeys),
        accounts@.len() >= SAMPLE_ACCOUNTS ==> (sequence matches Ok(sent) && sent@.len() == 2
            && sent@[0]@ == sample_deposit_view(accounts@) && sent@[1]@ == sample_borrow_view(
            accounts@,
        )),
{
    if accounts.len() < SAMPLE_ACCOUNTS {
        return Err(ApricotError::NotEnoughAccountKeys);
    }
    let user_wallet = &accounts[0];
    let user_spl_0 = &accounts[1];
    let user_spl_1 = &accounts[2];
    let user_info = &accounts[3];
    let pool_summaries = &accounts[4];
    let price_summaries = &accounts[5];
    let asset_pool_0 = &accounts[6];
    let asset_pool_1 = &accounts[7];
    let asset_pool_spl_0 = &accounts[8];
    let asset_pool_spl_1 = &accounts[9];
    let base_pda = &accounts[10];
    let token_program = &accounts[12];
    let apricot_program = &accounts[13];
    let deposit_ix = deposit_full(
        user_wallet,
        user_spl_0,
        user_info,
        asset_pool_0,
        asset_pool_spl_0,
        pool_summaries,
        price_summaries,
        token_program,
        apricot_program,
        SAMPLE_DEPOSIT_AMOUNT,
        SAMPLE_DEPOSIT_POOL_ID,
    );
    let borrow_ix = borrow_full(
        user_wallet,
        user_spl_1,
        user_info,
        asset_pool_1,
        asset_pool_spl_1,
        pool_summaries,
        price_summaries,
        base_pda,
        token_program,
        apricot_program,
        SAMPLE_BORROW_AMOUNT,
        SAMPLE_BORROW_POOL_ID,
    );
    let mut sent: Vec<Instruction> = Vec::new();
    sent.push(deposit_ix);
    sent.push(borrow_ix);
    Ok(sent)
}

} // verus!

//! The fixed addresses and opcodes of the lending program, and the addresses
//! that are derived from them.

use crate::pubkey::{has_pda_marker, seed_hash, Pubkey, PDA_MARKER};
use vstd::prelude::*;
use vstd::string::*;
use vstd::utf8::{encode_utf8, is_ascii_chars, is_ascii_chars_encode_utf8};

verus! {

/// The lending program: `6UeJYTLU1adaoHWeApWsoj1xNEDbWA2RhM2DLc8CrDDi`.
pub const PROGRAM_ID: [u8; 32] = [
    81, 95, 75, 100, 16, 33, 37, 43, 168, 133, 107, 251, 140, 224, 255, 180,
    178, 125, 26, 148, 107, 207, 191, 41, 6, 240, 37, 114, 1, 229, 65, 137,
];

/// The base address under which the program keeps its accounts:
/// `7Ne6h2w3LpTNTa7CNYcUs7UkjeJT3oW7jcrXWfVScTXW`.
pub const BASE_PDA_ID: [u8; 32] = [
    94, 177, 67, 248, 159, 230, 104, 60, 159, 113, 120, 238, 57, 123, 151, 34,
    254, 208, 35, 44, 117, 18, 117, 133, 248, 228, 188, 170, 200, 9, 134, 25,
];

/// Bump seed of the base address.
pub const BASE_PDA_BUMP: u8 = 246;

/// The base address under which the program keeps its prices:
/// `CNyLieChpAUFLehaX9sQvjWUQCXPwJ1aEYDEYp8tPgPF`.
pub const PRICE_PDA_ID: [u8; 32] = [
    169, 17, 116, 252, 192, 102, 216, 77, 144, 228, 136, 24, 87, 109, 95, 98,
    184, 154, 234, 12, 83, 9, 71, 110, 45, 243, 185, 104, 182, 96, 58, 198,
];

/// Bump seed of the price address.
pub const PRICE_PDA_BUMP: u8 = 254;

/// The account that counts the free slots of every page of users:
/// `Ew2JZxifBaPJHbM5AxZqWXXRAZSzScm7rbqYPpReLyzi`.
pub const USER_STATS_ID: [u8; 32] = [
    206, 254, 196, 85, 101, 185, 80, 196, 154, 136, 72, 158, 230, 194, 163, 179,
    243, 34, 6, 129, 5, 40, 63, 32, 176, 74, 178, 188, 15, 130, 35, 251,
];

/// The account that summarises every pool: `2Rqfnx1VsNjhR1GBXnM1TJc86n2H6E8C7S28KiUdFA6q`.
pub const POOL_SUMMARIES_ID: [u8; 32] = [
    21, 56, 168, 7, 172, 240, 145, 88, 133, 47, 212, 4, 90, 139, 125, 149,
    220, 239, 116, 51, 156, 4, 43, 118, 194, 186, 117, 113, 59, 122, 230, 38,
];

/// The account that summarises every price: `AvBhFJACkkWoo4qJ89kgMoGfk3xKxr2i1oG9DJDKF7uf`.
pub const PRICE_SUMMARIES_ID: [u8; 32] = [
    147, 89, 14, 142, 10, 178, 31, 0, 243, 223, 23, 94, 18, 146, 12, 216,
    42, 44, 182, 126, 172, 196, 99, 35, 138, 159, 131, 23, 91, 51, 213, 214,
];

/// The vault from which liquidity-mining rewards are paid:
/// `C1k4CehboSgUkmL3BJfw32Xj9HPs9NKTzhT5WXsYwWh4`.
pub const LM_APT_VAULT_ID: [u8; 32] = [
    163, 161, 61, 36, 247, 190, 167, 181, 162, 120, 132, 190, 159, 12, 3, 148,
    98, 97, 176, 201, 11, 205, 35, 231, 178, 71, 105, 43, 94, 98, 20, 199,
];

/// The token program: `TokenkegQfeZyiNwAJbNbGKPFXCWuBvf9Ss623VQ5DA`.
pub const TOKEN_PROGRAM_ID: [u8; 32] = [
    6, 221, 246, 225, 215, 101, 161, 147, 217, 203, 225, 70, 206, 235, 121, 172,
    28, 180, 133, 237, 95, 91, 55, 145, 58, 140, 245, 133, 126, 255, 0, 169,
];

/// The program of associated token accounts:
/// `ATokenGPvbdGVxr1b2hvZbsiqW5xWH25efTNsLJA8knL`.
pub const ASSOCIATED_TOKEN_PROGRAM_ID: [u8; 32] = [
    140, 151, 37, 143, 78, 36, 137, 241, 187, 61, 16, 41, 20, 142, 13, 131,
    11, 90, 19, 153, 218, 255, 16, 132, 4, 142, 123, 216, 219, 233, 248, 89,
];

/// The system program: `11111111111111111111111111111111`.
pub const SYSTEM_PROGRAM_ID: [u8; 32] = [
    0, 0, 0, 0, 0, 0, 0, 0, 0, 0, 0, 0, 0, 0, 0, 0,
    0, 0, 0, 0, 0, 0, 0, 0, 0, 0, 0, 0, 0, 0, 0, 0,
];

/// Bring a user's accrued interest up to date.
pub const CMD_REFRESH_USER: u8 = 0x0a;

/// Create the user's account and deposit into a pool.
pub const CMD_ADD_USER_AND_DEPOSIT: u8 = 0x10;

/// Deposit into a pool.
pub const CMD_DEPOSIT: u8 = 0x11;

/// Withdraw part of a deposit.
pub const CMD_WITHDRAW: u8 = 0x12;

/// Borrow from a pool.
pub const CMD_BORROW: u8 = 0x13;

/// Repay a debt.
pub const CMD_REPAY: u8 = 0x14;

/// Repay part of another user's debt in exchange for collateral.
pub const CMD_EXTERN_LIQUIDATE: u8 = 0x15;

/// Change a user's settings.
pub const CMD_UPDATE_USER_CONFIG: u8 = 0x17;

/// Swap on margin.
pub const CMD_MARGIN_SWAP: u8 = 0x18;

/// Change whether one asset of a user serves as collateral.
pub const CMD_UPDATE_USER_ASSET_CONFIG: u8 = 0x19;

/// Withdraw a whole deposit and free the user's slot.
pub const CMD_WITHDRAW_AND_REMOVE_USER: u8 = 0x1a;

/// Pay out the liquidity-mining reward that is claimable.
pub const CMD_CLAIM_APT_LM_REWARD: u8 = 0x29;

/// Make the liquidity-mining reward that has vested claimable.
pub const CMD_MAKE_LM_REWARD_AVAILABLE: u8 = 0x2a;

// Error codes of the program: an account that is not the expected one.
pub const ERR_INCORRECT_BASE_PDA: u32 = 0x1000;
pub const ERR_INCORRECT_USER_PAGES_STATS: u32 = 0x1001;
pub const ERR_INCORRECT_USERS_PAGE: u32 = 0x1002;
pub const ERR_INCORRECT_USER_INFO: u32 = 0x1003;
pub const ERR_INCORRECT_ASSET_POOL: u32 = 0x1004;
pub const ERR_INCORRECT_ASSET_PRICE: u32 = 0x1005;
pub const ERR_INCORRECT_ASSET_POOL_SPL: u32 = 0x1006;
pub const ERR_INCORRECT_USER_ASSET_INFO: u32 = 0x1007;
pub const ERR_MISSING_ACTIVE_ACCOUNTS: u32 = 0x1008;
pub const ERR_INCORRECT_INTERMEDIATE_SPL: u32 = 0x1009;
pub const ERR_INCORRECT_SELL_MARKET: u32 = 0x100a;
pub const ERR_INCORRECT_BUY_MARKET: u32 = 0x100b;
pub const ERR_INCORRECT_SERUM_PROGRAM: u32 = 0x100c;
pub const ERR_INCORRECT_ADMIN: u32 = 0x100d;
pub const ERR_INCORRECT_INTERMEDIATE_SPL_OWNER: u32 = 0x100e;
pub const ERR_INCORRECT_POOL_LIST: u32 = 0x100f;
pub const ERR_INCORRECT_POOL_SUMMARIES: u32 = 0x1010;
pub const ERR_INCORRECT_PRICE_SUMMARIES: u32 = 0x1011;
pub const ERR_INCORRECT_PRICE_PDA: u32 = 0x1012;
pub const ERR_INCORRECT_TOKEN_PROGRAM: u32 = 0x1013;
pub const ERR_INCORRECT_ASSET_POOL_ATOKEN_MINT: u32 = 0x1014;
pub const ERR_INCORRECT_INSTRUCTIONS_SYSVAR: u32 = 0x1015;

// Error codes of the program: malformed instruction data.
pub const ERR_MISSING_PAGE_ID: u32 = 0x2000;
pub const ERR_PAGE_ID_TOO_LARGE: u32 = 0x2001;
pub const ERR_MISSING_AMOUNT: u32 = 0x2002;
pub const ERR_MISSING_MINT_SEED_STR: u32 = 0x2003;
pub const ERR_MISSING_ACTIVE_MINT_SEED_STR: u32 = 0x2004;
pub const ERR_WRONG_DATA_SIZE: u32 = 0x2005;

// Error codes of the program: inconsistent internal state.
pub const ERR_ACCOUNT_ALREADY_ADDED: u32 = 0x3000;
pub const ERR_NO_AVAILABLE_SLOTS: u32 = 0x3001;
pub const ERR_ACCOUNT_NOT_ADDED: u32 = 0x3002;
pub const ERR_WALLET_DID_NOT_SIGN: u32 = 0x3003;
pub const ERR_MAXIMUM_NUM_POOLS_REACHED: u32 = 0x3004;
pub const ERR_USER_HAS_NO_SUCH_ASSET: u32 = 0x3005;
pub const ERR_NEED_AT_LEAST_BUY_OR_SELL: u32 = 0x3006;
pub const ERR_INSUFFICIENT_FEES: u32 = 0x3007;

// Error codes of the program: a request that the rules refuse.
pub const ERR_DEPOSIT_LESS_THAN_MINIMUM: u32 = 0x4000;
pub const ERR_INSUFFICIENT_DEPOSIT: u32 = 0x4001;
pub const ERR_POOL_NO_FREE_FUND: u32 = 0x4002;
pub const ERR_PLEASE_WITHDRAW_ALL: u32 = 0x4003;
pub const ERR_INSUFFICIENT_BORROW_POWER: u32 = 0x4004;
pub const ERR_CANNOT_REPAY_MORE_THAN_DEBT: u32 = 0x4005;
pub const ERR_WITHDRAWL_BELOW_MIN_COLLATERAL_RATIO: u32 = 0x4006;
pub const ERR_LIQUIDATION_NOT_REACHED: u32 = 0x4007;
pub const ERR_LIQUIDATOR_ASKED_TOO_MUCH_COLLATERAL: u32 = 0x4008;
pub const ERR_ACCOUNT_NOT_ENOUGH_DEBT_FOR_LIQUIDATION: u32 = 0x4009;
pub const ERR_ACCOUNT_NOT_ENOUGH_COLLATERAL_FOR_LIQUIDATION: u32 = 0x400a;
pub const ERR_EXCEEDS_LIQUIDATION_LIMIT: u32 = 0x400b;
pub const ERR_SELF_DELEVERAGE_FACTOR_TOO_LARGE: u32 = 0x400c;
pub const ERR_POST_DELEVERAGE_FACTOR_TOO_LARGE: u32 = 0x400d;
pub const ERR_DEPRECATED_XXXXXXXXXXXXXX: u32 = 0x400e;
pub const ERR_SELF_DELEVERAGE_FACTOR_NOT_REACHED: u32 = 0x400f;
pub const ERR_SELF_DELEVERAGE_TARGET_EXCEEDED: u32 = 0x4010;
pub const ERR_SELF_DELEVERAGE_HIGH_SLIPPAGE: u32 = 0x4011;
pub const ERR_MAX_NUM_ASSETS_REACHED: u32 = 0x4012;
pub const ERR_SWAP_BOUGHT_LESS_THAN_MIN: u32 = 0x4013;
pub const ERR_ASSET_NOT_USED_AS_COLLATERAL: u32 = 0x4014;
pub const ERR_INSUFFICIENT_WALLET_BALANCE: u32 = 0x4015;
pub const ERR_SWAP_LP_GOT_LESS_THAN_MIN: u32 = 0x4016;
pub const ERR_ASSIST_ALREADY_EXECUTED: u32 = 0x4017;
pub const ERR_ASSIST_NOT_ENABLED: u32 = 0x4018;
pub const ERR_ASSIST_CHECK_MUST_BE_FIRST: u32 = 0x4019;
pub const ERR_ASSIST_ACTION_NOT_ALLOWED: u32 = 0x4020;
pub const ERR_ASSIST_INCONSISTENT_ACTION: u32 = 0x4021;

/// Seed of the account that holds a user's positions.
pub const USER_INFO_SEED: &'static str = "UserInfo";

/// Seed of the account that counts the free slots of every page of users.
pub const USER_PAGES_STATS_SEED: &'static str = "UserPagesStats";

/// The bytes of `USER_INFO_SEED`.
pub open spec fn user_info_seed() -> Seq<u8> {
    seq![85, 115, 101, 114, 73, 110, 102, 111]
}

/// The bytes of `UsersPage_`, the text before the number in a page's seed.
pub open spec fn users_page_prefix() -> Seq<u8> {
    seq![85, 115, 101, 114, 115, 80, 97, 103, 101, 95]
}

/// The decimal digits of `n` in ASCII, without leading zeros.
pub open spec fn decimal(n: nat) -> Seq<u8>
    decreases n,
{
    if n < 10 {
        seq![(48 + n) as u8]
    } else {
        decimal(n / 10).push((48 + n % 10) as u8)
    }
}

/// The seed of the page `page_id` of users: `UsersPage_` and the number.
pub open spec fn users_page_seed(page_id: u16) -> Seq<u8> {
    users_page_prefix() + decimal(page_id as nat)
}

/// The seed of the pool `pool_id`: `POOL__` and two letters from `a` to `p`,
/// the first for `pool_id / 16` and the second for `pool_id % 16`.
pub open spec fn pool_seed(pool_id: u8) -> Seq<u8> {
    seq![80, 79, 79, 76, 95, 95, (97 + pool_id / 16) as u8, (97 + pool_id % 16) as u8]
}

/// The text whose characters have the given ASCII codes.
pub open spec fn ascii_text(bytes: Seq<u8>) -> Seq<char> {
    Seq::new(bytes.len(), |i: int| bytes[i] as char)
}

/// Whether every byte is an ASCII code.
pub open spec fn all_ascii(bytes: Seq<u8>) -> bool {
    forall|i: int| 0 <= i < bytes.len() ==> bytes[i] < 128
}

/// ASCII text is stored in UTF-8 as its codes.
pub proof fn lemma_ascii_text_bytes(bytes: Seq<u8>)
    requires
        all_ascii(bytes),
    ensures
        is_ascii_chars(ascii_text(bytes)),
        encode_utf8(ascii_text(bytes)) == bytes,
{
    let text = ascii_text(bytes);
    assert forall|i: int| 0 <= i < text.len() implies '\0' <= #[trigger] text[i] <= '\u{7f}' by {
        assert(bytes[i] < 128);
    }
    is_ascii_chars_encode_utf8(text);
    assert(encode_utf8(text) =~= bytes);
}

/// A decimal numeral consists of digits.
pub proof fn lemma_decimal_digits(n: nat)
    ensures
        decimal(n).len() >= 1,
        forall|i: int| 0 <= i < decimal(n).len() ==> 48 <= #[trigger] decimal(n)[i] <= 57,
        n >= 10 ==> decimal(n).len() >= 2,
    decreases n,
{
    if n >= 10 {
        lemma_decimal_digits(n / 10);
    }
}

/// The numeral of a 16-bit number has at most five digits.
pub proof fn lemma_decimal_len_u16(n: nat)
    requires
        n < 0x1_0000,
    ensures
        1 <= decimal(n).len() <= 5,
{
    reveal_with_fuel(decimal, 6);
}

/// Different numbers have different numerals.
pub proof fn lemma_decimal_injective(a: nat, b: nat)
    requires
        decimal(a) == decimal(b),
    ensures
        a == b,
    decreases a,
{
    lemma_decimal_digits(a);
    lemma_decimal_digits(b);
    if a < 10 && b < 10 {
        assert(decimal(a)[0] == decimal(b)[0]);
    } else if a >= 10 && b >= 10 {
        let da = decimal(a / 10);
        let db = decimal(b / 10);
        assert(decimal(a).drop_last() =~= da);
        assert(decimal(b).drop_last() =~= db);
        assert(decimal(a).last() == (48 + a % 10) as u8);
        assert(decimal(b).last() == (48 + b % 10) as u8);
        lemma_decimal_injective(a / 10, b / 10);
    } else {
        assert(decimal(a).len() != decimal(b).len());
    }
}

/// Different pools have different seeds.
pub proof fn lemma_pool_seed_injective(a: u8, b: u8)
    requires
        pool_seed(a) == pool_seed(b),
    ensures
        a == b,
{
    assert(pool_seed(a)[6] == pool_seed(b)[6]);
    assert(pool_seed(a)[7] == pool_seed(b)[7]);
}

/// Different pages of users have different seeds.
pub proof fn lemma_users_page_seed_injective(a: u16, b: u16)
    requires
        users_page_seed(a) == users_page_seed(b),
    ensures
        a == b,
{
    let p = users_page_prefix();
    assert(users_page_seed(a).subrange(10, users_page_seed(a).len() as int) =~= decimal(a as nat));
    assert(users_page_seed(b).subrange(10, users_page_seed(b).len() as int) =~= decimal(b as nat));
    lemma_decimal_injective(a as nat, b as nat);
}

/// The address of the account of user `wallet`.
pub open spec fn user_info_address(wallet: Seq<u8>) -> Seq<u8> {
    seed_hash(wallet, user_info_seed(), PROGRAM_ID@)
}

/// The address of the page `page_id` of users.
pub open spec fn users_page_address(page_id: u16) -> Seq<u8> {
    seed_hash(BASE_PDA_ID@, users_page_seed(page_id), PROGRAM_ID@)
}

/// The address of the state of pool `pool_id`.
pub open spec fn asset_pool_address(pool_id: u8) -> Seq<u8> {
    seed_hash(BASE_PDA_ID@, pool_seed(pool_id), PROGRAM_ID@)
}

/// The address of the token account of pool `pool_id` under `token_program`.
pub open spec fn asset_pool_spl_address(token_program: Seq<u8>, pool_id: u8) -> Seq<u8> {
    seed_hash(BASE_PDA_ID@, pool_seed(pool_id), token_program)
}

/// The one-letter text for `n`: `a` for 0 up to `p` for 15.
fn seed_letter(n: u8) -> (letter: &'static str)
    requires
        n < 16,
    ensures
        letter@ == ascii_text(seq![(97 + n) as u8]),
{
    proof {
        reveal_strlit("a");
        reveal_strlit("b");
        reveal_strlit("c");
        reveal_strlit("d");
        reveal_strlit("e");
        reveal_strlit("f");
        reveal_strlit("g");
        reveal_strlit("h");
        reveal_strlit("i");
        reveal_strlit("j");
        reveal_strlit("k");
        reveal_strlit("l");
        reveal_strlit("m");
        reveal_strlit("n");
        reveal_strlit("o");
        reveal_strlit("p");
    }
    let letter = match n {
        0 => "a",
        1 => "b",
        2 => "c",
        3 => "d",
        4 => "e",
        5 => "f",
        6 => "g",
        7 => "h",
        8 => "i",
        9 => "j",
        10 => "k",
        11 => "l",
        12 => "m",
        13 => "n",
        14 => "o",
        _ => "p",
    };
    assert(letter@ =~= ascii_text(seq![(97 + n) as u8]));
    letter
}

/// The one-digit text for `d`.
fn digit_text(d: u8) -> (digit: &'static str)
    requires
        d < 10,
    ensures
        digit@ == ascii_text(seq![(48 + d) as u8]),
{
    proof {
        reveal_strlit("0");
        reveal_strlit("1");
        reveal_strlit("2");
        reveal_strlit("3");
        reveal_strlit("4");
        reveal_strlit("5");
        reveal_strlit("6");
        reveal_strlit("7");
        reveal_strlit("8");
        reveal_strlit("9");
    }
    let digit = match d {
        0 => "0",
        1 => "1",
        2 => "2",
        3 => "3",
        4 => "4",
        5 => "5",
        6 => "6",
        7 => "7",
        8 => "8",
        _ => "9",
    };
    assert(digit@ =~= ascii_text(seq![(48 + d) as u8]));
    digit
}

/// Appends the decimal numeral of `n` to `text`.
fn append_decimal(text: &mut String, n: u16)
    ensures
        final(text)@ == old(text)@ + ascii_text(decimal(n as nat)),
    decreases n,
{
    let ghost before = text@;
    if n >= 10 {
        append_decimal(text, n / 10);
    }
    text.append(digit_text((n % 10) as u8));
    assert(text@ =~= before + ascii_text(decimal(n as nat)));
}

/// The seed of pool `pool_id` as text. The same eight bytes are left in
/// `buffer`.
pub fn pool_id_to_seed_str(pool_id: u8, buffer: &mut [u8; 8]) -> (seed: String)
    ensures
        final(buffer)@ == pool_seed(pool_id),
        seed@ == ascii_text(pool_seed(pool_id)),
        encode_utf8(seed@) == pool_seed(pool_id),
{
    *buffer = [80, 79, 79, 76, 95, 95, 95, 95];
    buffer[6] = pool_id / 16 + 97;
    buffer[7] = pool_id % 16 + 97;
    assert(buffer@ =~= pool_seed(pool_id));
    let mut seed = String::from_str("POOL__");
    proof {
        reveal_strlit("POOL__");
    }
    seed.append(seed_letter(pool_id / 16));
    seed.append(seed_letter(pool_id % 16));
    proof {
        assert(seed@ =~= ascii_text(pool_seed(pool_id)));
        lemma_ascii_text_bytes(pool_seed(pool_id));
    }
    seed
}

/// The seed of the page `page_id` of users as text.
pub fn users_page_seed_str(page_id: u16) -> (seed: String)
    ensures
        seed@ == ascii_text(users_page_seed(page_id)),
        encode_utf8(seed@) == users_page_seed(page_id),
{
    let mut seed = String::from_str("UsersPage_");
    proof {
        reveal_strlit("UsersPage_");
    }
    append_decimal(&mut seed, page_id);
    proof {
        lemma_decimal_digits(page_id as nat);
        assert(seed@ =~= ascii_text(users_page_seed(page_id)));
        lemma_ascii_text_bytes(users_page_seed(page_id));
    }
    seed
}

/// The address of the token program, from `spl_token::id()`.
///
/// Trusted: the crate declares the program under the address
/// `TokenkegQfeZyiNwAJbNbGKPFXCWuBvf9Ss623VQ5DA`, whose bytes are
/// `TOKEN_PROGRAM_ID`.
#[verifier::external_body]
pub(crate) fn token_program_id() -> (key: Pubkey)
    ensures
        key@ == TOKEN_PROGRAM_ID@,
{
    Pubkey { bytes: spl_token::id().to_bytes() }
}

/// The address of the system program, from
/// `solana_sdk_ids::system_program::id()`.
///
/// Trusted: the crate declares the program under the address
/// `11111111111111111111111111111111`, whose bytes are all zero, as
/// `SYSTEM_PROGRAM_ID` has them.
#[verifier::external_body]
pub(crate) fn system_program_id() -> (key: Pubkey)
    ensures
        key@ == SYSTEM_PROGRAM_ID@,
{
    Pubkey { bytes: solana_sdk_ids::system_program::id().to_bytes() }
}

/// The address of the program of associated token accounts, from
/// `spl_associated_token_account::id()`.
///
/// Trusted: the crate declares the program under the address
/// `ATokenGPvbdGVxr1b2hvZbsiqW5xWH25efTNsLJA8knL`, whose bytes are
/// `ASSOCIATED_TOKEN_PROGRAM_ID`.
#[verifier::external_body]
pub(crate) fn associated_token_program_id() -> (key: Pubkey)
    ensures
        key@ == ASSOCIATED_TOKEN_PROGRAM_ID@,
{
    Pubkey { bytes: spl_associated_token_account::id().to_bytes() }
}

/// The address of the lending program.
pub fn program_id() -> (key: Pubkey)
    ensures
        key@ == PROGRAM_ID@,
{
    Pubkey::new_from_array(PROGRAM_ID)
}

/// The base address under which the program keeps its accounts.
pub fn get_base_pda() -> (key: Pubkey)
    ensures
        key@ == BASE_PDA_ID@,
{
    Pubkey::new_from_array(BASE_PDA_ID)
}

/// The address of the account that summarises every pool.
pub fn get_pool_summaries_k() -> (key: Pubkey)
    ensures
        key@ == POOL_SUMMARIES_ID@,
{
    Pubkey::new_from_array(POOL_SUMMARIES_ID)
}

/// The address of the account that summarises every price.
pub fn get_price_summaries_k() -> (key: Pubkey)
    ensures
        key@ == PRICE_SUMMARIES_ID@,
{
    Pubkey::new_from_array(PRICE_SUMMARIES_ID)
}

/// The address of the account that counts the free slots of every page.
pub fn get_user_pages_stats_k() -> (key: Pubkey)
    ensures
        key@ == USER_STATS_ID@,
{
    Pubkey::new_from_array(USER_STATS_ID)
}

/// The address of the vault from which liquidity-mining rewards are paid.
pub fn get_lm_apt_vault_k() -> (key: Pubkey)
    ensures
        key@ == LM_APT_VAULT_ID@,
{
    Pubkey::new_from_array(LM_APT_VAULT_ID)
}

/// The lending program does not end in the marker of derived addresses, so
/// addresses can be derived with it as the owner.
pub proof fn lemma_program_id_is_legal_owner()
    ensures
        !has_pda_marker(PROGRAM_ID@),
{
    assert(PROGRAM_ID@.subrange(11, 32)[0] != PDA_MARKER@[0]);
}

/// The token program does not end in the marker of derived addresses.
pub proof fn lemma_token_program_is_legal_owner()
    ensures
        !has_pda_marker(TOKEN_PROGRAM_ID@),
{
    assert(TOKEN_PROGRAM_ID@.subrange(11, 32)[0] != PDA_MARKER@[0]);
}

/// The address of the page `page_id` of users.
pub fn get_users_page_k(page_id: u16) -> (key: Pubkey)
    ensures
        key@ == users_page_address(page_id),
{
    let seed = users_page_seed_str(page_id);
    proof {
        lemma_decimal_len_u16(page_id as nat);
        lemma_program_id_is_legal_owner();
    }
    let derived = Pubkey::create_with_seed(&get_base_pda(), seed.as_str(), &program_id());
    match derived {
        Ok(key) => key,
        Err(_) => vstd::pervasive::unreached(),
    }
}

/// The address of the state of pool `pool_id`.
pub fn get_asset_pool_k(pool_id: u8) -> (key: Pubkey)
    ensures
        key@ == asset_pool_address(pool_id),
{
    let mut mint_seed_buffer = [0u8; 8];
    let seed = pool_id_to_seed_str(pool_id, &mut mint_seed_buffer);
    proof {
        lemma_program_id_is_legal_owner();
    }
    let derived = Pubkey::create_with_seed(&get_base_pda(), seed.as_str(), &program_id());
    match derived {
        Ok(key) => key,
        Err(_) => vstd::pervasive::unreached(),
    }
}

/// The address of the token account of pool `pool_id`, owned by the token
/// program `token_program_id`.
///
/// No address is derived for an owner that ends in the marker of derived
/// addresses: test it with `Pubkey::has_pda_marker` first.
pub fn get_asset_pool_spl_k(token_program_id: &Pubkey, pool_id: u8) -> (key: Pubkey)
    requires
        !has_pda_marker(token_program_id@),
    ensures
        key@ == asset_pool_spl_address(token_program_id@, pool_id),
{
    let mut mint_seed_buffer = [0u8; 8];
    let seed = pool_id_to_seed_str(pool_id, &mut mint_seed_buffer);
    let derived = Pubkey::create_with_seed(&get_base_pda(), seed.as_str(), token_program_id);
    match derived {
        Ok(key) => key,
        Err(_) => vstd::pervasive::unreached(),
    }
}

/// The address of the account that holds the positions of the user
/// `user_wallet_key`.
pub fn get_user_info_k(user_wallet_key: &Pubkey) -> (key: Pubkey)
    ensures
        key@ == user_info_address(user_wallet_key@),
{
    proof {
        reveal_strlit("UserInfo");
        assert(USER_INFO_SEED@ =~= ascii_text(user_info_seed()));
        lemma_ascii_text_bytes(user_info_seed());
        lemma_program_id_is_legal_owner();
    }
    let derived = Pubkey::create_with_seed(user_wallet_key, USER_INFO_SEED, &program_id());
    match derived {
        Ok(key) => key,
        Err(_) => vstd::pervasive::unreached(),
    }
}

} // verus!

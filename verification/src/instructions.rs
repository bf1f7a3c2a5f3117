//! The commands of the lending program: their parameter blocks and the
//! instructions that carry them.
//!
//! An instruction's payload is one opcode byte followed by the command's
//! parameters, each a little-endian integer, in a fixed order and without
//! padding. The program finds its accounts by position, so the order of the
//! account list and the signer and writable flags are part of the format.

use crate::codec::{
    field, le_bytes, lemma_field_bytes, lemma_field_in_concat, lemma_le_bytes_len,
    lemma_pow256_values, lemma_subrange_join, read_u16, read_u64, read_u8, write_le,
};
use crate::consts::{
    asset_pool_address, asset_pool_spl_address, get_asset_pool_k, get_asset_pool_spl_k,
    get_base_pda, get_lm_apt_vault_k, get_pool_summaries_k, get_price_summaries_k,
    get_user_info_k, get_user_pages_stats_k, get_users_page_k, lemma_token_program_is_legal_owner,
    program_id, system_program_id, token_program_id, user_info_address, users_page_address,
    BASE_PDA_ID, CMD_ADD_USER_AND_DEPOSIT, CMD_BORROW, CMD_CLAIM_APT_LM_REWARD, CMD_DEPOSIT,
    CMD_EXTERN_LIQUIDATE, CMD_MAKE_LM_REWARD_AVAILABLE, CMD_REFRESH_USER, CMD_REPAY,
    CMD_WITHDRAW, CMD_WITHDRAW_AND_REMOVE_USER, LM_APT_VAULT_ID, POOL_SUMMARIES_ID,
    PRICE_SUMMARIES_ID, PROGRAM_ID, SYSTEM_PROGRAM_ID, TOKEN_PROGRAM_ID, USER_STATS_ID,
};
use crate::error::ApricotError;
use crate::pubkey::Pubkey;
use vstd::prelude::*;

verus! {

/// One account of an instruction: its address, whether it must sign the
/// transaction, and whether the program may write to it.
#[derive(Clone, Copy, Debug, PartialEq, Eq)]
pub struct AccountMeta {
    pub pubkey: Pubkey,
    pub is_signer: bool,
    pub is_writable: bool,
}

/// An account of an instruction, with the address as a sequence of bytes.
pub struct AccountMetaView {
    pub pubkey: Seq<u8>,
    pub is_signer: bool,
    pub is_writable: bool,
}

impl View for AccountMeta {
    type V = AccountMetaView;

    open spec fn view(&self) -> AccountMetaView {
        AccountMetaView {
            pubkey: self.pubkey@,
            is_signer: self.is_signer,
            is_writable: self.is_writable,
        }
    }
}

/// An account that the program may write to.
pub open spec fn writable(pubkey: Seq<u8>, is_signer: bool) -> AccountMetaView {
    AccountMetaView { pubkey, is_signer, is_writable: true }
}

/// An account that the program only reads.
pub open spec fn readonly(pubkey: Seq<u8>, is_signer: bool) -> AccountMetaView {
    AccountMetaView { pubkey, is_signer, is_writable: false }
}

impl AccountMeta {
    /// An account that the program may write to.
    pub fn new(pubkey: Pubkey, is_signer: bool) -> (meta: AccountMeta)
        ensures
            meta@ == writable(pubkey@, is_signer),
    {
        AccountMeta { pubkey, is_signer, is_writable: true }
    }

    /// An account that the program only reads.
    pub fn new_readonly(pubkey: Pubkey, is_signer: bool) -> (meta: AccountMeta)
        ensures
            meta@ == readonly(pubkey@, is_signer),
    {
        AccountMeta { pubkey, is_signer, is_writable: false }
    }
}

/// A call of a program: the program's address, the accounts it is given, in
/// the order in which it expects them, and the payload.
#[derive(Clone, Debug, PartialEq, Eq)]
pub struct Instruction {
    pub program_id: Pubkey,
    pub accounts: Vec<AccountMeta>,
    pub data: Vec<u8>,
}

/// An instruction, with every address as a sequence of bytes.
pub struct InstructionView {
    pub program_id: Seq<u8>,
    pub accounts: Seq<AccountMetaView>,
    pub data: Seq<u8>,
}

impl View for Instruction {
    type V = InstructionView;

    open spec fn view(&self) -> InstructionView {
        InstructionView {
            program_id: self.program_id@,
            accounts: Seq::new(self.accounts@.len(), |i: int| self.accounts@[i]@),
            data: self.data@,
        }
    }
}

/// The payload of a command: the opcode, then the parameter block.
pub open spec fn payload(opcode: u8, params: Seq<u8>) -> Seq<u8> {
    seq![opcode] + params
}



/// The byte that stands for a flag on the wire: 1 for set, 0 for clear.
pub open spec fn spec_flag(set: bool) -> u8 {
    if set {
        1
    } else {
        0
    }
}

/// The byte that stands for a flag on the wire: 1 for set, 0 for clear.
#[verifier::when_used_as_spec(spec_flag)]
pub fn flag(set: bool) -> (byte: u8)
    ensures
        byte == spec_flag(set),
{
    if set {
        1
    } else {
        0
    }
}

/// Size in bytes of a `UpdateUserAssetConfigParam` on the wire.
pub const UPDATE_USER_ASSET_CONFIG_PARAM_SIZE: usize = 2;

/// Parameters of a change of one asset's use: whether it serves as collateral, and
/// of which pool it is.
#[derive(Clone, Copy, Debug, PartialEq, Eq)]
pub struct UpdateUserAssetConfigParam {
    pub use_as_collateral: u8,
    pub pool_id: u8,
}

impl UpdateUserAssetConfigParam {
    /// The parameter block on the wire: the fields in their order, each least
    /// significant byte first.
    pub open spec fn spec_to_bytes(self) -> Seq<u8> {
        le_bytes(self.use_as_collateral as nat, 1)
            + le_bytes(self.pool_id as nat, 1)
    }

    /// The parameters that the first bytes of `data` hold.
    pub open spec fn spec_from_bytes(data: Seq<u8>) -> UpdateUserAssetConfigParam {
        UpdateUserAssetConfigParam {
            use_as_collateral: field(data, 0, 1) as u8,
            pool_id: field(data, 1, 1) as u8,
        }
    }

    /// Appends the parameter block to `out`.
    pub fn write(&self, out: &mut Vec<u8>)
        ensures
            final(out)@ == old(out)@ + self.spec_to_bytes(),
    {
        let ghost before = out@;
        write_le(out, self.use_as_collateral as u128, 1);
        write_le(out, self.pool_id as u128, 1);
        assert(out@ =~= before + self.spec_to_bytes());
    }

    /// The parameter block on the wire.
    pub fn to_bytes(&self) -> (out: Vec<u8>)
        ensures
            out@ == self.spec_to_bytes(),
            out@.len() == UPDATE_USER_ASSET_CONFIG_PARAM_SIZE,
    {
        let mut out: Vec<u8> = Vec::new();
        self.write(&mut out);
        proof {
            Self::lemma_roundtrip(*self);
            assert(out@ =~= self.spec_to_bytes());
        }
        out
    }

    /// Reads the parameters from the first bytes of `data`; fails on a buffer
    /// that is too short to hold them.
    pub fn from_bytes(data: &[u8]) -> (decoded: Result<UpdateUserAssetConfigParam, ApricotError>)
        ensures
            data@.len() >= UPDATE_USER_ASSET_CONFIG_PARAM_SIZE ==> (decoded matches Ok(param) && param
                == Self::spec_from_bytes(data@)),
            data@.len() < UPDATE_USER_ASSET_CONFIG_PARAM_SIZE ==> (decoded matches Err(e) && e
                == ApricotError::BufferTooSmall),
    {
        if data.len() < UPDATE_USER_ASSET_CONFIG_PARAM_SIZE {
            return Err(ApricotError::BufferTooSmall);
        }
        Ok(UpdateUserAssetConfigParam {
            use_as_collateral: read_u8(data, 0),
            pool_id: read_u8(data, 1),
        })
    }

    /// Writing parameters and reading them back gives the same parameters.
    pub proof fn lemma_roundtrip(param: UpdateUserAssetConfigParam)
        ensures
            param.spec_to_bytes().len() == UPDATE_USER_ASSET_CONFIG_PARAM_SIZE,
            Self::spec_from_bytes(param.spec_to_bytes()) == param,
    {
        lemma_pow256_values();
        let bytes = param.spec_to_bytes();
        let f0 = le_bytes(param.use_as_collateral as nat, 1);
        lemma_le_bytes_len(param.use_as_collateral as nat, 1);
        let f1 = le_bytes(param.pool_id as nat, 1);
        lemma_le_bytes_len(param.pool_id as nat, 1);
        let left0 = Seq::<u8>::empty();
        let right0 = f1;
        assert(bytes =~= left0 + f0 + right0);
        lemma_field_in_concat(left0, param.use_as_collateral as nat, 1, right0);
        let left1 = f0;
        let right1 = Seq::<u8>::empty();
        assert(bytes =~= left1 + f1 + right1);
        lemma_field_in_concat(left1, param.pool_id as nat, 1, right1);
    }

    /// Every byte of the block belongs to a parameter: reading a block and writing
    /// what was read gives the block again.
    pub proof fn lemma_unpadded(data: Seq<u8>)
        requires
            data.len() >= UPDATE_USER_ASSET_CONFIG_PARAM_SIZE,
        ensures
            Self::spec_from_bytes(data).spec_to_bytes() == data.subrange(
                0,
                UPDATE_USER_ASSET_CONFIG_PARAM_SIZE as int,
            ),
    {
        lemma_pow256_values();
        lemma_field_bytes(data, 0, 1);
        lemma_field_bytes(data, 1, 1);
        lemma_subrange_join(data, 0, 1, 2);
    }
}

/// Size in bytes of a `AddUserAndDepositParam` on the wire.
pub const ADD_USER_AND_DEPOSIT_PARAM_SIZE: usize = 11;

/// Parameters of a first deposit: how much, into which pool, and on which page
/// of users the new account is entered.
#[derive(Clone, Copy, Debug, PartialEq, Eq)]
pub struct AddUserAndDepositParam {
    pub amount: u64,
    pub pool_id: u8,
    pub page_id: u16,
}

impl AddUserAndDepositParam {
    /// The parameter block on the wire: the fields in their order, each least
    /// significant byte first.
    pub open spec fn spec_to_bytes(self) -> Seq<u8> {
        le_bytes(self.amount as nat, 8)
            + le_bytes(self.pool_id as nat, 1)
            + le_bytes(self.page_id as nat, 2)
    }

    /// The parameters that the first bytes of `data` hold.
    pub open spec fn spec_from_bytes(data: Seq<u8>) -> AddUserAndDepositParam {
        AddUserAndDepositParam {
            amount: field(data, 0, 8) as u64,
            pool_id: field(data, 8, 1) as u8,
            page_id: field(data, 9, 2) as u16,
        }
    }

    /// Appends the parameter block to `out`.
    pub fn write(&self, out: &mut Vec<u8>)
        ensures
            final(out)@ == old(out)@ + self.spec_to_bytes(),
    {
        let ghost before = out@;
        write_le(out, self.amount as u128, 8);
        write_le(out, self.pool_id as u128, 1);
        write_le(out, self.page_id as u128, 2);
        assert(out@ =~= before + self.spec_to_bytes());
    }

    /// The parameter block on the wire.
    pub fn to_bytes(&self) -> (out: Vec<u8>)
        ensures
            out@ == self.spec_to_bytes(),
            out@.len() == ADD_USER_AND_DEPOSIT_PARAM_SIZE,
    {
        let mut out: Vec<u8> = Vec::new();
        self.write(&mut out);
        proof {
            Self::lemma_roundtrip(*self);
            assert(out@ =~= self.spec_to_bytes());
        }
        out
    }

    /// Reads the parameters from the first bytes of `data`; fails on a buffer
    /// that is too short to hold them.
    pub fn from_bytes(data: &[u8]) -> (decoded: Result<AddUserAndDepositParam, ApricotError>)
        ensures
            data@.len() >= ADD_USER_AND_DEPOSIT_PARAM_SIZE ==> (decoded matches Ok(param) && param
                == Self::spec_from_bytes(data@)),
            data@.len() < ADD_USER_AND_DEPOSIT_PARAM_SIZE ==> (decoded matches Err(e) && e
                == ApricotError::BufferTooSmall),
    {
        if data.len() < ADD_USER_AND_DEPOSIT_PARAM_SIZE {
            return Err(ApricotError::BufferTooSmall);
        }
        Ok(AddUserAndDepositParam {
            amount: read_u64(data, 0),
            pool_id: read_u8(data, 8),
            page_id: read_u16(data, 9),
        })
    }

    /// Writing parameters and reading them back gives the same parameters.
    pub proof fn lemma_roundtrip(param: AddUserAndDepositParam)
        ensures
            param.spec_to_bytes().len() == ADD_USER_AND_DEPOSIT_PARAM_SIZE,
            Self::spec_from_bytes(param.spec_to_bytes()) == param,
    {
        lemma_pow256_values();
        let bytes = param.spec_to_bytes();
        let f0 = le_bytes(param.amount as nat, 8);
        lemma_le_bytes_len(param.amount as nat, 8);
        let f1 = le_bytes(param.pool_id as nat, 1);
        lemma_le_bytes_len(param.pool_id as nat, 1);
        let f2 = le_bytes(param.page_id as nat, 2);
        lemma_le_bytes_len(param.page_id as nat, 2);
        let left0 = Seq::<u8>::empty();
        let right0 = f1 + f2;
        assert(bytes =~= left0 + f0 + right0);
        lemma_field_in_concat(left0, param.amount as nat, 8, right0);
        let left1 = f0;
        let right1 = f2;
        assert(bytes =~= left1 + f1 + right1);
        lemma_field_in_concat(left1, param.pool_id as nat, 1, right1);
        let left2 = f0 + f1;
        let right2 = Seq::<u8>::empty();
        assert(bytes =~= left2 + f2 + right2);
        lemma_field_in_concat(left2, param.page_id as nat, 2, right2);
    }

    /// Every byte of the block belongs to a parameter: reading a block and writing
    /// what was read gives the block again.
    pub proof fn lemma_unpadded(data: Seq<u8>)
        requires
            data.len() >= ADD_USER_AND_DEPOSIT_PARAM_SIZE,
        ensures
            Self::spec_from_bytes(data).spec_to_bytes() == data.subrange(
                0,
                ADD_USER_AND_DEPOSIT_PARAM_SIZE as int,
            ),
    {
        lemma_pow256_values();
        lemma_field_bytes(data, 0, 8);
        lemma_field_bytes(data, 8, 1);
        lemma_subrange_join(data, 0, 8, 9);
        lemma_field_bytes(data, 9, 2);
        lemma_subrange_join(data, 0, 9, 11);
    }
}

/// Size in bytes of a `DepositParam` on the wire.
pub const DEPOSIT_PARAM_SIZE: usize = 9;

/// Parameters of a deposit: how much, and into which pool.
#[derive(Clone, Copy, Debug, PartialEq, Eq)]
pub struct DepositParam {
    pub amount: u64,
    pub pool_id: u8,
}

impl DepositParam {
    /// The parameter block on the wire: the fields in their order, each least
    /// significant byte first.
    pub open spec fn spec_to_bytes(self) -> Seq<u8> {
        le_bytes(self.amount as nat, 8)
            + le_bytes(self.pool_id as nat, 1)
    }

    /// The parameters that the first bytes of `data` hold.
    pub open spec fn spec_from_bytes(data: Seq<u8>) -> DepositParam {
        DepositParam {
            amount: field(data, 0, 8) as u64,
            pool_id: field(data, 8, 1) as u8,
        }
    }

    /// Appends the parameter block to `out`.
    pub fn write(&self, out: &mut Vec<u8>)
        ensures
            final(out)@ == old(out)@ + self.spec_to_bytes(),
    {
        let ghost before = out@;
        write_le(out, self.amount as u128, 8);
        write_le(out, self.pool_id as u128, 1);
        assert(out@ =~= before + self.spec_to_bytes());
    }

    /// The parameter block on the wire.
    pub fn to_bytes(&self) -> (out: Vec<u8>)
        ensures
            out@ == self.spec_to_bytes(),
            out@.len() == DEPOSIT_PARAM_SIZE,
    {
        let mut out: Vec<u8> = Vec::new();
        self.write(&mut out);
        proof {
            Self::lemma_roundtrip(*self);
            assert(out@ =~= self.spec_to_bytes());
        }
        out
    }

    /// Reads the parameters from the first bytes of `data`; fails on a buffer
    /// that is too short to hold them.
    pub fn from_bytes(data: &[u8]) -> (decoded: Result<DepositParam, ApricotError>)
        ensures
            data@.len() >= DEPOSIT_PARAM_SIZE ==> (decoded matches Ok(param) && param
                == Self::spec_from_bytes(data@)),
            data@.len() < DEPOSIT_PARAM_SIZE ==> (decoded matches Err(e) && e
                == ApricotError::BufferTooSmall),
    {
        if data.len() < DEPOSIT_PARAM_SIZE {
            return Err(ApricotError::BufferTooSmall);
        }
        Ok(DepositParam {
            amount: read_u64(data, 0),
            pool_id: read_u8(data, 8),
        })
    }

    /// Writing parameters and reading them back gives the same parameters.
    pub proof fn lemma_roundtrip(param: DepositParam)
        ensures
            param.spec_to_bytes().len() == DEPOSIT_PARAM_SIZE,
            Self::spec_from_bytes(param.spec_to_bytes()) == param,
    {
        lemma_pow256_values();
        let bytes = param.spec_to_bytes();
        let f0 = le_bytes(param.amount as nat, 8);
        lemma_le_bytes_len(param.amount as nat, 8);
        let f1 = le_bytes(param.pool_id as nat, 1);
        lemma_le_bytes_len(param.pool_id as nat, 1);
        let left0 = Seq::<u8>::empty();
        let right0 = f1;
        assert(bytes =~= left0 + f0 + right0);
        lemma_field_in_concat(left0, param.amount as nat, 8, right0);
        let left1 = f0;
        let right1 = Seq::<u8>::empty();
        assert(bytes =~= left1 + f1 + right1);
        lemma_field_in_concat(left1, param.pool_id as nat, 1, right1);
    }

    /// Every byte of the block belongs to a parameter: reading a block and writing
    /// what was read gives the block again.
    pub proof fn lemma_unpadded(data: Seq<u8>)
        requires
            data.len() >= DEPOSIT_PARAM_SIZE,
        ensures
            Self::spec_from_bytes(data).spec_to_bytes() == data.subrange(
                0,
                DEPOSIT_PARAM_SIZE as int,
            ),
    {
        lemma_pow256_values();
        lemma_field_bytes(data, 0, 8);
        lemma_field_bytes(data, 8, 1);
        lemma_subrange_join(data, 0, 8, 9);
    }
}

/// Size in bytes of a `WithdrawParam` on the wire.
pub const WITHDRAW_PARAM_SIZE: usize = 10;

/// Parameters of a withdrawal: whether everything is withdrawn, else how much,
/// and from which pool.
#[derive(Clone, Copy, Debug, PartialEq, Eq)]
pub struct WithdrawParam {
    pub withdraw_all: u8,
    pub amount: u64,
    pub pool_id: u8,
}

impl WithdrawParam {
    /// The parameter block on the wire: the fields in their order, each least
    /// significant byte first.
    pub open spec fn spec_to_bytes(self) -> Seq<u8> {
        le_bytes(self.withdraw_all as nat, 1)
            + le_bytes(self.amount as nat, 8)
            + le_bytes(self.pool_id as nat, 1)
    }

    /// The parameters that the first bytes of `data` hold.
    pub open spec fn spec_from_bytes(data: Seq<u8>) -> WithdrawParam {
        WithdrawParam {
            withdraw_all: field(data, 0, 1) as u8,
            amount: field(data, 1, 8) as u64,
            pool_id: field(data, 9, 1) as u8,
        }
    }

    /// Appends the parameter block to `out`.
    pub fn write(&self, out: &mut Vec<u8>)
        ensures
            final(out)@ == old(out)@ + self.spec_to_bytes(),
    {
        let ghost before = out@;
        write_le(out, self.withdraw_all as u128, 1);
        write_le(out, self.amount as u128, 8);
        write_le(out, self.pool_id as u128, 1);
        assert(out@ =~= before + self.spec_to_bytes());
    }

    /// The parameter block on the wire.
    pub fn to_bytes(&self) -> (out: Vec<u8>)
        ensures
            out@ == self.spec_to_bytes(),
            out@.len() == WITHDRAW_PARAM_SIZE,
    {
        let mut out: Vec<u8> = Vec::new();
        self.write(&mut out);
        proof {
            Self::lemma_roundtrip(*self);
            assert(out@ =~= self.spec_to_bytes());
        }
        out
    }

    /// Reads the parameters from the first bytes of `data`; fails on a buffer
    /// that is too short to hold them.
    pub fn from_bytes(data: &[u8]) -> (decoded: Result<WithdrawParam, ApricotError>)
        ensures
            data@.len() >= WITHDRAW_PARAM_SIZE ==> (decoded matches Ok(param) && param
                == Self::spec_from_bytes(data@)),
            data@.len() < WITHDRAW_PARAM_SIZE ==> (decoded matches Err(e) && e
                == ApricotError::BufferTooSmall),
    {
        if data.len() < WITHDRAW_PARAM_SIZE {
            return Err(ApricotError::BufferTooSmall);
        }
        Ok(WithdrawParam {
            withdraw_all: read_u8(data, 0),
            amount: read_u64(data, 1),
            pool_id: read_u8(data, 9),
        })
    }

    /// Writing parameters and reading them back gives the same parameters.
    pub proof fn lemma_roundtrip(param: WithdrawParam)
        ensures
            param.spec_to_bytes().len() == WITHDRAW_PARAM_SIZE,
            Self::spec_from_bytes(param.spec_to_bytes()) == param,
    {
        lemma_pow256_values();
        let bytes = param.spec_to_bytes();
        let f0 = le_bytes(param.withdraw_all as nat, 1);
        lemma_le_bytes_len(param.withdraw_all as nat, 1);
        let f1 = le_bytes(param.amount as nat, 8);
        lemma_le_bytes_len(param.amount as nat, 8);
        let f2 = le_bytes(param.pool_id as nat, 1);
        lemma_le_bytes_len(param.pool_id as nat, 1);
        let left0 = Seq::<u8>::empty();
        let right0 = f1 + f2;
        assert(bytes =~= left0 + f0 + right0);
        lemma_field_in_concat(left0, param.withdraw_all as nat, 1, right0);
        let left1 = f0;
        let right1 = f2;
        assert(bytes =~= left1 + f1 + right1);
        lemma_field_in_concat(left1, param.amount as nat, 8, right1);
        let left2 = f0 + f1;
        let right2 = Seq::<u8>::empty();
        assert(bytes =~= left2 + f2 + right2);
        lemma_field_in_concat(left2, param.pool_id as nat, 1, right2);
    }

    /// Every byte of the block belongs to a parameter: reading a block and writing
    /// what was read gives the block again.
    pub proof fn lemma_unpadded(data: Seq<u8>)
        requires
            data.len() >= WITHDRAW_PARAM_SIZE,
        ensures
            Self::spec_from_bytes(data).spec_to_bytes() == data.subrange(
                0,
                WITHDRAW_PARAM_SIZE as int,
            ),
    {
        lemma_pow256_values();
        lemma_field_bytes(data, 0, 1);
        lemma_field_bytes(data, 1, 8);
        lemma_subrange_join(data, 0, 1, 9);
        lemma_field_bytes(data, 9, 1);
        lemma_subrange_join(data, 0, 9, 10);
    }
}

/// Size in bytes of a `BorrowParam` on the wire.
pub const BORROW_PARAM_SIZE: usize = 9;

/// Parameters of a loan: how much, and from which pool.
#[derive(Clone, Copy, Debug, PartialEq, Eq)]
pub struct BorrowParam {
    pub amount: u64,
    pub pool_id: u8,
}

impl BorrowParam {
    /// The parameter block on the wire: the fields in their order, each least
    /// significant byte first.
    pub open spec fn spec_to_bytes(self) -> Seq<u8> {
        le_bytes(self.amount as nat, 8)
            + le_bytes(self.pool_id as nat, 1)
    }

    /// The parameters that the first bytes of `data` hold.
    pub open spec fn spec_from_bytes(data: Seq<u8>) -> BorrowParam {
        BorrowParam {
            amount: field(data, 0, 8) as u64,
            pool_id: field(data, 8, 1) as u8,
        }
    }

    /// Appends the parameter block to `out`.
    pub fn write(&self, out: &mut Vec<u8>)
        ensures
            final(out)@ == old(out)@ + self.spec_to_bytes(),
    {
        let ghost before = out@;
        write_le(out, self.amount as u128, 8);
        write_le(out, self.pool_id as u128, 1);
        assert(out@ =~= before + self.spec_to_bytes());
    }

    /// The parameter block on the wire.
    pub fn to_bytes(&self) -> (out: Vec<u8>)
        ensures
            out@ == self.spec_to_bytes(),
            out@.len() == BORROW_PARAM_SIZE,
    {
        let mut out: Vec<u8> = Vec::new();
        self.write(&mut out);
        proof {
            Self::lemma_roundtrip(*self);
            assert(out@ =~= self.spec_to_bytes());
        }
        out
    }

    /// Reads the parameters from the first bytes of `data`; fails on a buffer
    /// that is too short to hold them.
    pub fn from_bytes(data: &[u8]) -> (decoded: Result<BorrowParam, ApricotError>)
        ensures
            data@.len() >= BORROW_PARAM_SIZE ==> (decoded matches Ok(param) && param
                == Self::spec_from_bytes(data@)),
            data@.len() < BORROW_PARAM_SIZE ==> (decoded matches Err(e) && e
                == ApricotError::BufferTooSmall),
    {
        if data.len() < BORROW_PARAM_SIZE {
            return Err(ApricotError::BufferTooSmall);
        }
        Ok(BorrowParam {
            amount: read_u64(data, 0),
            pool_id: read_u8(data, 8),
        })
    }

    /// Writing parameters and reading them back gives the same parameters.
    pub proof fn lemma_roundtrip(param: BorrowParam)
        ensures
            param.spec_to_bytes().len() == BORROW_PARAM_SIZE,
            Self::spec_from_bytes(param.spec_to_bytes()) == param,
    {
        lemma_pow256_values();
        let bytes = param.spec_to_bytes();
        let f0 = le_bytes(param.amount as nat, 8);
        lemma_le_bytes_len(param.amount as nat, 8);
        let f1 = le_bytes(param.pool_id as nat, 1);
        lemma_le_bytes_len(param.pool_id as nat, 1);
        let left0 = Seq::<u8>::empty();
        let right0 = f1;
        assert(bytes =~= left0 + f0 + right0);
        lemma_field_in_concat(left0, param.amount as nat, 8, right0);
        let left1 = f0;
        let right1 = Seq::<u8>::empty();
        assert(bytes =~= left1 + f1 + right1);
        lemma_field_in_concat(left1, param.pool_id as nat, 1, right1);
    }

    /// Every byte of the block belongs to a parameter: reading a block and writing
    /// what was read gives the block again.
    pub proof fn lemma_unpadded(data: Seq<u8>)
        requires
            data.len() >= BORROW_PARAM_SIZE,
        ensures
            Self::spec_from_bytes(data).spec_to_bytes() == data.subrange(
                0,
                BORROW_PARAM_SIZE as int,
            ),
    {
        lemma_pow256_values();
        lemma_field_bytes(data, 0, 8);
        lemma_field_bytes(data, 8, 1);
        lemma_subrange_join(data, 0, 8, 9);
    }
}

/// Size in bytes of a `RepayParam` on the wire.
pub const REPAY_PARAM_SIZE: usize = 10;

/// Parameters of a repayment: whether the whole debt is repaid, else how much,
/// and to which pool.
#[derive(Clone, Copy, Debug, PartialEq, Eq)]
pub struct RepayParam {
    pub repay_all: u8,
    pub amount: u64,
    pub pool_id: u8,
}

impl RepayParam {
    /// The parameter block on the wire: the fields in their order, each least
    /// significant byte first.
    pub open spec fn spec_to_bytes(self) -> Seq<u8> {
        le_bytes(self.repay_all as nat, 1)
            + le_bytes(self.amount as nat, 8)
            + le_bytes(self.pool_id as nat, 1)
    }

    /// The parameters that the first bytes of `data` hold.
    pub open spec fn spec_from_bytes(data: Seq<u8>) -> RepayParam {
        RepayParam {
            repay_all: field(data, 0, 1) as u8,
            amount: field(data, 1, 8) as u64,
            pool_id: field(data, 9, 1) as u8,
        }
    }

    /// Appends the parameter block to `out`.
    pub fn write(&self, out: &mut Vec<u8>)
        ensures
            final(out)@ == old(out)@ + self.spec_to_bytes(),
    {
        let ghost before = out@;
        write_le(out, self.repay_all as u128, 1);
        write_le(out, self.amount as u128, 8);
        write_le(out, self.pool_id as u128, 1);
        assert(out@ =~= before + self.spec_to_bytes());
    }

    /// The parameter block on the wire.
    pub fn to_bytes(&self) -> (out: Vec<u8>)
        ensures
            out@ == self.spec_to_bytes(),
            out@.len() == REPAY_PARAM_SIZE,
    {
        let mut out: Vec<u8> = Vec::new();
        self.write(&mut out);
        proof {
            Self::lemma_roundtrip(*self);
            assert(out@ =~= self.spec_to_bytes());
        }
        out
    }

    /// Reads the parameters from the first bytes of `data`; fails on a buffer
    /// that is too short to hold them.
    pub fn from_bytes(data: &[u8]) -> (decoded: Result<RepayParam, ApricotError>)
        ensures
            data@.len() >= REPAY_PARAM_SIZE ==> (decoded matches Ok(param) && param
                == Self::spec_from_bytes(data@)),
            data@.len() < REPAY_PARAM_SIZE ==> (decoded matches Err(e) && e
                == ApricotError::BufferTooSmall),
    {
        if data.len() < REPAY_PARAM_SIZE {
            return Err(ApricotError::BufferTooSmall);
        }
        Ok(RepayParam {
            repay_all: read_u8(data, 0),
            amount: read_u64(data, 1),
            pool_id: read_u8(data, 9),
        })
    }

    /// Writing parameters and reading them back gives the same parameters.
    pub proof fn lemma_roundtrip(param: RepayParam)
        ensures
            param.spec_to_bytes().len() == REPAY_PARAM_SIZE,
            Self::spec_from_bytes(param.spec_to_bytes()) == param,
    {
        lemma_pow256_values();
        let bytes = param.spec_to_bytes();
        let f0 = le_bytes(param.repay_all as nat, 1);
        lemma_le_bytes_len(param.repay_all as nat, 1);
        let f1 = le_bytes(param.amount as nat, 8);
        lemma_le_bytes_len(param.amount as nat, 8);
        let f2 = le_bytes(param.pool_id as nat, 1);
        lemma_le_bytes_len(param.pool_id as nat, 1);
        let left0 = Seq::<u8>::empty();
        let right0 = f1 + f2;
        assert(bytes =~= left0 + f0 + right0);
        lemma_field_in_concat(left0, param.repay_all as nat, 1, right0);
        let left1 = f0;
        let right1 = f2;
        assert(bytes =~= left1 + f1 + right1);
        lemma_field_in_concat(left1, param.amount as nat, 8, right1);
        let left2 = f0 + f1;
        let right2 = Seq::<u8>::empty();
        assert(bytes =~= left2 + f2 + right2);
        lemma_field_in_concat(left2, param.pool_id as nat, 1, right2);
    }

    /// Every byte of the block belongs to a parameter: reading a block and writing
    /// what was read gives the block again.
    pub proof fn lemma_unpadded(data: Seq<u8>)
        requires
            data.len() >= REPAY_PARAM_SIZE,
        ensures
            Self::spec_from_bytes(data).spec_to_bytes() == data.subrange(
                0,
                REPAY_PARAM_SIZE as int,
            ),
    {
        lemma_pow256_values();
        lemma_field_bytes(data, 0, 1);
        lemma_field_bytes(data, 1, 8);
        lemma_subrange_join(data, 0, 1, 9);
        lemma_field_bytes(data, 9, 1);
        lemma_subrange_join(data, 0, 9, 10);
    }
}

/// Size in bytes of a `ExternLiquidateParam` on the wire.
pub const EXTERN_LIQUIDATE_PARAM_SIZE: usize = 18;

/// Parameters of a liquidation: the least collateral that the liquidator
/// accepts, the debt that the liquidator repays, and the pools of both.
#[derive(Clone, Copy, Debug, PartialEq, Eq)]
pub struct ExternLiquidateParam {
    pub min_collateral_amount: u64,
    pub repaid_borrow_amount: u64,
    pub collateral_pool_id: u8,
    pub borrowed_pool_id: u8,
}

impl ExternLiquidateParam {
    /// The parameter block on the wire: the fields in their order, each least
    /// significant byte first.
    pub open spec fn spec_to_bytes(self) -> Seq<u8> {
        le_bytes(self.min_collateral_amount as nat, 8)
            + le_bytes(self.repaid_borrow_amount as nat, 8)
            + le_bytes(self.collateral_pool_id as nat, 1)
            + le_bytes(self.borrowed_pool_id as nat, 1)
    }

    /// The parameters that the first bytes of `data` hold.
    pub open spec fn spec_from_bytes(data: Seq<u8>) -> ExternLiquidateParam {
        ExternLiquidateParam {
            min_collateral_amount: field(data, 0, 8) as u64,
            repaid_borrow_amount: field(data, 8, 8) as u64,
            collateral_pool_id: field(data, 16, 1) as u8,
            borrowed_pool_id: field(data, 17, 1) as u8,
        }
    }

    /// Appends the parameter block to `out`.
    pub fn write(&self, out: &mut Vec<u8>)
        ensures
            final(out)@ == old(out)@ + self.spec_to_bytes(),
    {
        let ghost before = out@;
        write_le(out, self.min_collateral_amount as u128, 8);
        write_le(out, self.repaid_borrow_amount as u128, 8);
        write_le(out, self.collateral_pool_id as u128, 1);
        write_le(out, self.borrowed_pool_id as u128, 1);
        assert(out@ =~= before + self.spec_to_bytes());
    }

    /// The parameter block on the wire.
    pub fn to_bytes(&self) -> (out: Vec<u8>)
        ensures
            out@ == self.spec_to_bytes(),
            out@.len() == EXTERN_LIQUIDATE_PARAM_SIZE,
    {
        let mut out: Vec<u8> = Vec::new();
        self.write(&mut out);
        proof {
            Self::lemma_roundtrip(*self);
            assert(out@ =~= self.spec_to_bytes());
        }
        out
    }

    /// Reads the parameters from the first bytes of `data`; fails on a buffer
    /// that is too short to hold them.
    pub fn from_bytes(data: &[u8]) -> (decoded: Result<ExternLiquidateParam, ApricotError>)
        ensures
            data@.len() >= EXTERN_LIQUIDATE_PARAM_SIZE ==> (decoded matches Ok(param) && param
                == Self::spec_from_bytes(data@)),
            data@.len() < EXTERN_LIQUIDATE_PARAM_SIZE ==> (decoded matches Err(e) && e
                == ApricotError::BufferTooSmall),
    {
        if data.len() < EXTERN_LIQUIDATE_PARAM_SIZE {
            return Err(ApricotError::BufferTooSmall);
        }
        Ok(ExternLiquidateParam {
            min_collateral_amount: read_u64(data, 0),
            repaid_borrow_amount: read_u64(data, 8),
            collateral_pool_id: read_u8(data, 16),
            borrowed_pool_id: read_u8(data, 17),
        })
    }

    /// Writing parameters and reading them back gives the same parameters.
    pub proof fn lemma_roundtrip(param: ExternLiquidateParam)
        ensures
            param.spec_to_bytes().len() == EXTERN_LIQUIDATE_PARAM_SIZE,
            Self::spec_from_bytes(param.spec_to_bytes()) == param,
    {
        lemma_pow256_values();
        let bytes = param.spec_to_bytes();
        let f0 = le_bytes(param.min_collateral_amount as nat, 8);
        lemma_le_bytes_len(param.min_collateral_amount as nat, 8);
        let f1 = le_bytes(param.repaid_borrow_amount as nat, 8);
        lemma_le_bytes_len(param.repaid_borrow_amount as nat, 8);
        let f2 = le_bytes(param.collateral_pool_id as nat, 1);
        lemma_le_bytes_len(param.collateral_pool_id as nat, 1);
        let f3 = le_bytes(param.borrowed_pool_id as nat, 1);
        lemma_le_bytes_len(param.borrowed_pool_id as nat, 1);
        let left0 = Seq::<u8>::empty();
        let right0 = f1 + f2 + f3;
        assert(bytes =~= left0 + f0 + right0);
        lemma_field_in_concat(left0, param.min_collateral_amount as nat, 8, right0);
        let left1 = f0;
        let right1 = f2 + f3;
        assert(bytes =~= left1 + f1 + right1);
        lemma_field_in_concat(left1, param.repaid_borrow_amount as nat, 8, right1);
        let left2 = f0 + f1;
        let right2 = f3;
        assert(bytes =~= left2 + f2 + right2);
        lemma_field_in_concat(left2, param.collateral_pool_id as nat, 1, right2);
        let left3 = f0 + f1 + f2;
        let right3 = Seq::<u8>::empty();
        assert(bytes =~= left3 + f3 + right3);
        lemma_field_in_concat(left3, param.borrowed_pool_id as nat, 1, right3);
    }

    /// Every byte of the block belongs to a parameter: reading a block and writing
    /// what was read gives the block again.
    pub proof fn lemma_unpadded(data: Seq<u8>)
        requires
            data.len() >= EXTERN_LIQUIDATE_PARAM_SIZE,
        ensures
            Self::spec_from_bytes(data).spec_to_bytes() == data.subrange(
                0,
                EXTERN_LIQUIDATE_PARAM_SIZE as int,
            ),
    {
        lemma_pow256_values();
        lemma_field_bytes(data, 0, 8);
        lemma_field_bytes(data, 8, 8);
        lemma_subrange_join(data, 0, 8, 16);
        lemma_field_bytes(data, 16, 1);
        lemma_subrange_join(data, 0, 16, 17);
        lemma_field_bytes(data, 17, 1);
        lemma_subrange_join(data, 0, 17, 18);
    }
}
/// The accounts of a deposit, in the order in which the program expects them.
pub open spec fn deposit_accounts(
    user_wallet: Seq<u8>,
    user_spl: Seq<u8>,
    user_info: Seq<u8>,
    asset_pool: Seq<u8>,
    asset_pool_spl: Seq<u8>,
    pool_summaries: Seq<u8>,
    price_summaries: Seq<u8>,
    token_program: Seq<u8>,
) -> Seq<AccountMetaView> {
    seq![
        readonly(user_wallet, true),
        writable(user_spl, false),
        writable(user_info, false),
        writable(asset_pool, false),
        writable(asset_pool_spl, false),
        writable(pool_summaries, false),
        writable(price_summaries, false),
        readonly(token_program, false),
    ]
}

/// The instruction that `deposit_full` builds.
pub open spec fn deposit_full_view(
    user_wallet: Seq<u8>,
    user_spl: Seq<u8>,
    user_info: Seq<u8>,
    asset_pool: Seq<u8>,
    asset_pool_spl: Seq<u8>,
    pool_summaries: Seq<u8>,
    price_summaries: Seq<u8>,
    token_program: Seq<u8>,
    program_id: Seq<u8>,
    amount: u64,
    pool_id: u8,
) -> InstructionView {
    InstructionView {
        program_id,
        accounts: deposit_accounts(
            user_wallet,
            user_spl,
            user_info,
            asset_pool,
            asset_pool_spl,
            pool_summaries,
            price_summaries,
            token_program,
        ),
        data: payload(
            CMD_DEPOSIT,
            (DepositParam {
                amount,
                pool_id,
            }).spec_to_bytes(),
        ),
    }
}

/// The instruction that `deposit` builds: that of `deposit_full` with the
/// program's own accounts and those derived for the user and the pool.
pub open spec fn deposit_view(
    user_wallet: Seq<u8>,
    user_spl: Seq<u8>,
    amount: u64,
    pool_id: u8,
) -> InstructionView {
    deposit_full_view(
        user_wallet,
        user_spl,
        user_info_address(user_wallet),
        asset_pool_address(pool_id),
        asset_pool_spl_address(TOKEN_PROGRAM_ID@, pool_id),
        POOL_SUMMARIES_ID@,
        PRICE_SUMMARIES_ID@,
        TOKEN_PROGRAM_ID@,
        PROGRAM_ID@,
        amount,
        pool_id,
    )
}

/// A deposit of `amount` into pool `pool_id` by the user `user_wallet`, who signs,
/// from the user's token account `user_spl`. The other accounts are the
/// program's own and those derived for the user and the pool.
pub fn deposit(
    user_wallet: &Pubkey,
    user_spl: &Pubkey,
    amount: u64,
    pool_id: u8,
) -> (ix: Instruction)
    ensures
        ix@ == deposit_view(
            user_wallet@,
            user_spl@,
            amount,
            pool_id,
        ),
{
    let token_program = token_program_id();
    proof {
        lemma_token_program_is_legal_owner();
    }
    deposit_full(
        user_wallet,
        user_spl,
        &get_user_info_k(user_wallet),
        &get_asset_pool_k(pool_id),
        &get_asset_pool_spl_k(&token_program, pool_id),
        &get_pool_summaries_k(),
        &get_price_summaries_k(),
        &token_program,
        &program_id(),
        amount,
        pool_id,
    )
}

/// A deposit of `amount` into pool `pool_id`, with every account given.
pub fn deposit_full(
    user_wallet: &Pubkey,
    user_spl: &Pubkey,
    user_info: &Pubkey,
    asset_pool: &Pubkey,
    asset_pool_spl: &Pubkey,
    pool_summaries: &Pubkey,
    price_summaries: &Pubkey,
    token_program: &Pubkey,
    program_id: &Pubkey,
    amount: u64,
    pool_id: u8,
) -> (ix: Instruction)
    ensures
        ix@ == deposit_full_view(
            user_wallet@,
            user_spl@,
            user_info@,
            asset_pool@,
            asset_pool_spl@,
            pool_summaries@,
            price_summaries@,
            token_program@,
            program_id@,
            amount,
            pool_id,
        ),
{
    let mut buffer: Vec<u8> = Vec::new();
    buffer.push(CMD_DEPOSIT);
    let param = DepositParam {
        amount,
        pool_id,
    };
    param.write(&mut buffer);
    let accounts = vec![
        AccountMeta::new_readonly(*user_wallet, true),
        AccountMeta::new(*user_spl, false),
        AccountMeta::new(*user_info, false),
        AccountMeta::new(*asset_pool, false),
        AccountMeta::new(*asset_pool_spl, false),
        AccountMeta::new(*pool_summaries, false),
        AccountMeta::new(*price_summaries, false),
        AccountMeta::new_readonly(*token_program, false),
    ];
    let ix = Instruction { program_id: *program_id, accounts, data: buffer };
    assert(ix@.accounts =~= deposit_accounts(
        user_wallet@,
        user_spl@,
        user_info@,
        asset_pool@,
        asset_pool_spl@,
        pool_summaries@,
        price_summaries@,
        token_program@,
    ));
    assert(ix@.data =~= payload(CMD_DEPOSIT, param.spec_to_bytes()));
    ix
}

/// The accounts of a first deposit, in the order in which the program expects
/// them.
pub open spec fn add_user_and_deposit_accounts(
    user_wallet: Seq<u8>,
    user_spl: Seq<u8>,
    user_pages_stats: Seq<u8>,
    users_page: Seq<u8>,
    user_info: Seq<u8>,
    asset_pool: Seq<u8>,
    asset_pool_spl: Seq<u8>,
    pool_summaries: Seq<u8>,
    price_summaries: Seq<u8>,
    system_program: Seq<u8>,
    token_program: Seq<u8>,
) -> Seq<AccountMetaView> {
    seq![
        writable(user_wallet, true),
        writable(user_spl, false),
        writable(user_pages_stats, false),
        writable(users_page, false),
        writable(user_info, false),
        writable(asset_pool, false),
        writable(asset_pool_spl, false),
        writable(pool_summaries, false),
        writable(price_summaries, false),
        readonly(system_program, false),
        readonly(token_program, false),
    ]
}

/// The instruction that `add_user_and_deposit_full` builds.
pub open spec fn add_user_and_deposit_full_view(
    user_wallet: Seq<u8>,
    user_spl: Seq<u8>,
    user_pages_stats: Seq<u8>,
    users_page: Seq<u8>,
    user_info: Seq<u8>,
    asset_pool: Seq<u8>,
    asset_pool_spl: Seq<u8>,
    pool_summaries: Seq<u8>,
    price_summaries: Seq<u8>,
    system_program: Seq<u8>,
    token_program: Seq<u8>,
    program_id: Seq<u8>,
    amount: u64,
    pool_id: u8,
    page_id: u16,
) -> InstructionView {
    InstructionView {
        program_id,
        accounts: add_user_and_deposit_accounts(
            user_wallet,
            user_spl,
            user_pages_stats,
            users_page,
            user_info,
            asset_pool,
            asset_pool_spl,
            pool_summaries,
            price_summaries,
            system_program,
            token_program,
        ),
        data: payload(
            CMD_ADD_USER_AND_DEPOSIT,
            (AddUserAndDepositParam {
                amount,
                pool_id,
                page_id,
            }).spec_to_bytes(),
        ),
    }
}

/// The instruction that `add_user_and_deposit` builds: that of `add_user_and_deposit_full` with the
/// program's own accounts and those derived for the user and the pool.
pub open spec fn add_user_and_deposit_view(
    user_wallet: Seq<u8>,
    user_spl: Seq<u8>,
    amount: u64,
    pool_id: u8,
    page_id: u16,
) -> InstructionView {
    add_user_and_deposit_full_view(
        user_wallet,
        user_spl,
        USER_STATS_ID@,
        users_page_address(page_id),
        user_info_address(user_wallet),
        asset_pool_address(pool_id),
        asset_pool_spl_address(TOKEN_PROGRAM_ID@, pool_id),
        POOL_SUMMARIES_ID@,
        PRICE_SUMMARIES_ID@,
        SYSTEM_PROGRAM_ID@,
        TOKEN_PROGRAM_ID@,
        PROGRAM_ID@,
        amount,
        pool_id,
        page_id,
    )
}

/// The creation of the account of the user `user_wallet`, who signs and pays,
/// on page `page_id`, together with a deposit of `amount` into pool `pool_id`
/// from the user's token account `user_spl`.
pub fn add_user_and_deposit(
    user_wallet: &Pubkey,
    user_spl: &Pubkey,
    amount: u64,
    pool_id: u8,
    page_id: u16,
) -> (ix: Instruction)
    ensures
        ix@ == add_user_and_deposit_view(
            user_wallet@,
            user_spl@,
            amount,
            pool_id,
            page_id,
        ),
{
    let token_program = token_program_id();
    proof {
        lemma_token_program_is_legal_owner();
    }
    add_user_and_deposit_full(
        user_wallet,
        user_spl,
        &get_user_pages_stats_k(),
        &get_users_page_k(page_id),
        &get_user_info_k(user_wallet),
        &get_asset_pool_k(pool_id),
        &get_asset_pool_spl_k(&token_program, pool_id),
        &get_pool_summaries_k(),
        &get_price_summaries_k(),
        &system_program_id(),
        &token_program,
        &program_id(),
        amount,
        pool_id,
        page_id,
    )
}

/// The creation of a user's account on page `page_id` together with a deposit
/// of `amount` into pool `pool_id`, with every account given.
pub fn add_user_and_deposit_full(
    user_wallet: &Pubkey,
    user_spl: &Pubkey,
    user_pages_stats: &Pubkey,
    users_page: &Pubkey,
    user_info: &Pubkey,
    asset_pool: &Pubkey,
    asset_pool_spl: &Pubkey,
    pool_summaries: &Pubkey,
    price_summaries: &Pubkey,
    system_program: &Pubkey,
    token_program: &Pubkey,
    program_id: &Pubkey,
    amount: u64,
    pool_id: u8,
    page_id: u16,
) -> (ix: Instruction)
    ensures
        ix@ == add_user_and_deposit_full_view(
            user_wallet@,
            user_spl@,
            user_pages_stats@,
            users_page@,
            user_info@,
            asset_pool@,
            asset_pool_spl@,
            pool_summaries@,
            price_summaries@,
            system_program@,
            token_program@,
            program_id@,
            amount,
            pool_id,
            page_id,
        ),
{
    let mut buffer: Vec<u8> = Vec::new();
    buffer.push(CMD_ADD_USER_AND_DEPOSIT);
    let param = AddUserAndDepositParam {
        amount,
        pool_id,
        page_id,
    };
    param.write(&mut buffer);
    let accounts = vec![
        AccountMeta::new(*user_wallet, true),
        AccountMeta::new(*user_spl, false),
        AccountMeta::new(*user_pages_stats, false),
        AccountMeta::new(*users_page, false),
        AccountMeta::new(*user_info, false),
        AccountMeta::new(*asset_pool, false),
        AccountMeta::new(*asset_pool_spl, false),
        AccountMeta::new(*pool_summaries, false),
        AccountMeta::new(*price_summaries, false),
        AccountMeta::new_readonly(*system_program, false),
        AccountMeta::new_readonly(*token_program, false),
    ];
    let ix = Instruction { program_id: *program_id, accounts, data: buffer };
    assert(ix@.accounts =~= add_user_and_deposit_accounts(
        user_wallet@,
        user_spl@,
        user_pages_stats@,
        users_page@,
        user_info@,
        asset_pool@,
        asset_pool_spl@,
        pool_summaries@,
        price_summaries@,
        system_program@,
        token_program@,
    ));
    assert(ix@.data =~= payload(CMD_ADD_USER_AND_DEPOSIT, param.spec_to_bytes()));
    ix
}

/// The opcode of a withdrawal: a withdrawal of everything also frees the
/// user's slot, and is a command of its own.
pub open spec fn withdraw_opcode(withdraw_all: bool) -> u8 {
    if withdraw_all {
        CMD_WITHDRAW_AND_REMOVE_USER
    } else {
        CMD_WITHDRAW
    }
}

/// The two accounts that only a withdrawal of everything names: the count of
/// free slots and the page on which the user is entered.
pub open spec fn withdraw_page_accounts(withdraw_all: bool, page_id: u16) -> Seq<AccountMetaView> {
    if withdraw_all {
        seq![writable(USER_STATS_ID@, false), writable(users_page_address(page_id), false)]
    } else {
        Seq::empty()
    }
}

/// The accounts of a withdrawal, in the order in which the program expects
/// them: the user's two accounts, then the two page accounts if everything is
/// withdrawn, then the rest.
pub open spec fn withdraw_accounts(
    withdraw_all: bool,
    page_id: u16,
    user_wallet: Seq<u8>,
    user_spl: Seq<u8>,
    user_info: Seq<u8>,
    asset_pool: Seq<u8>,
    asset_pool_spl: Seq<u8>,
    pool_summaries: Seq<u8>,
    price_summaries: Seq<u8>,
    base_pda: Seq<u8>,
    token_program: Seq<u8>,
) -> Seq<AccountMetaView> {
    seq![readonly(user_wallet, true), writable(user_spl, false)] + withdraw_page_accounts(
        withdraw_all,
        page_id,
    ) + seq![
        writable(user_info, false),
        writable(asset_pool, false),
        writable(asset_pool_spl, false),
        writable(pool_summaries, false),
        readonly(price_summaries, false),
        readonly(base_pda, false),
        readonly(token_program, false),
    ]
}

/// The instruction that `withdraw_full` builds.
pub open spec fn withdraw_full_view(
    user_wallet: Seq<u8>,
    user_spl: Seq<u8>,
    user_info: Seq<u8>,
    asset_pool: Seq<u8>,
    asset_pool_spl: Seq<u8>,
    pool_summaries: Seq<u8>,
    price_summaries: Seq<u8>,
    base_pda: Seq<u8>,
    token_program: Seq<u8>,
    program_id: Seq<u8>,
    withdraw_all: bool,
    amount: u64,
    pool_id: u8,
    page_id: u16,
) -> InstructionView {
    InstructionView {
        program_id,
        accounts: withdraw_accounts(
            withdraw_all,
            page_id,
            user_wallet,
            user_spl,
            user_info,
            asset_pool,
            asset_pool_spl,
            pool_summaries,
            price_summaries,
            base_pda,
            token_program,
        ),
        data: payload(
            withdraw_opcode(withdraw_all),
            (WithdrawParam {
                withdraw_all: flag(withdraw_all),
                amount,
                pool_id,
            }).spec_to_bytes(),
        ),
    }
}

/// The instruction that `withdraw` builds: that of `withdraw_full` with the
/// program's own accounts and those derived for the user and the pool.
pub open spec fn withdraw_view(
    user_wallet: Seq<u8>,
    user_spl: Seq<u8>,
    withdraw_all: bool,
    amount: u64,
    pool_id: u8,
    page_id: u16,
) -> InstructionView {
    withdraw_full_view(
        user_wallet,
        user_spl,
        user_info_address(user_wallet),
        asset_pool_address(pool_id),
        asset_pool_spl_address(TOKEN_PROGRAM_ID@, pool_id),
        POOL_SUMMARIES_ID@,
        PRICE_SUMMARIES_ID@,
        BASE_PDA_ID@,
        TOKEN_PROGRAM_ID@,
        PROGRAM_ID@,
        withdraw_all,
        amount,
        pool_id,
        page_id,
    )
}

/// A withdrawal of everything names exactly two accounts more than a partial
/// one, the count of free slots and the user's page, in the third and fourth
/// place; the other accounts are the same and keep their order.
pub proof fn lemma_withdraw_all_adds_two_accounts(
    page_id: u16,
    user_wallet: Seq<u8>,
    user_spl: Seq<u8>,
    user_info: Seq<u8>,
    asset_pool: Seq<u8>,
    asset_pool_spl: Seq<u8>,
    pool_summaries: Seq<u8>,
    price_summaries: Seq<u8>,
    base_pda: Seq<u8>,
    token_program: Seq<u8>,
)
    ensures
        ({
            let all = withdraw_accounts(
                true,
                page_id,
                user_wallet,
                user_spl,
                user_info,
                asset_pool,
                asset_pool_spl,
                pool_summaries,
                price_summaries,
                base_pda,
                token_program,
            );
            let part = withdraw_accounts(
                false,
                page_id,
                user_wallet,
                user_spl,
                user_info,
                asset_pool,
                asset_pool_spl,
                pool_summaries,
                price_summaries,
                base_pda,
                token_program,
            );
            &&& part.len() == 9
            &&& all.len() == part.len() + 2
            &&& all == part.subrange(0, 2) + seq![
                writable(USER_STATS_ID@, false),
                writable(users_page_address(page_id), false),
            ] + part.subrange(2, 9)
        }),
{
    let all = withdraw_accounts(
        true,
        page_id,
        user_wallet,
        user_spl,
        user_info,
        asset_pool,
        asset_pool_spl,
        pool_summaries,
        price_summaries,
        base_pda,
        token_program,
    );
    let part = withdraw_accounts(
        false,
        page_id,
        user_wallet,
        user_spl,
        user_info,
        asset_pool,
        asset_pool_spl,
        pool_summaries,
        price_summaries,
        base_pda,
        token_program,
    );
    assert(all =~= part.subrange(0, 2) + seq![
        writable(USER_STATS_ID@, false),
        writable(users_page_address(page_id), false),
    ] + part.subrange(2, 9));
}

/// A withdrawal from pool `pool_id` by the user `user_wallet`, who signs, into
/// the user's token account `user_spl`: of everything if `withdraw_all`, else
/// of `amount`. `page_id` is the page on which the user is entered; only a
/// withdrawal of everything uses it.
pub fn withdraw(
    user_wallet: &Pubkey,
    user_spl: &Pubkey,
    withdraw_all: bool,
    amount: u64,
    pool_id: u8,
    page_id: u16,
) -> (ix: Instruction)
    ensures
        ix@ == withdraw_view(user_wallet@, user_spl@, withdraw_all, amount, pool_id, page_id),
{
    let token_program = token_program_id();
    proof {
        lemma_token_program_is_legal_owner();
    }
    withdraw_full(
        user_wallet,
        user_spl,
        &get_user_info_k(user_wallet),
        &get_asset_pool_k(pool_id),
        &get_asset_pool_spl_k(&token_program, pool_id),
        &get_pool_summaries_k(),
        &get_price_summaries_k(),
        &get_base_pda(),
        &token_program,
        &program_id(),
        withdraw_all,
        amount,
        pool_id,
        page_id,
    )
}

/// A withdrawal from pool `pool_id`, with every account given but the two page
/// accounts, which are the program's count of free slots and the page `page_id`.
///
/// A withdrawal of everything is sent as the command that also frees the
/// user's slot, with the flag set and the two page accounts in the third and
/// fourth place; a partial one as the plain withdrawal, with the flag clear
/// and without them.
pub fn withdraw_full(
    user_wallet: &Pubkey,
    user_spl: &Pubkey,
    user_info: &Pubkey,
    asset_pool: &Pubkey,
    asset_pool_spl: &Pubkey,
    pool_summaries: &Pubkey,
    price_summaries: &Pubkey,
    base_pda: &Pubkey,
    token_program: &Pubkey,
    program_id: &Pubkey,
    withdraw_all: bool,
    amount: u64,
    pool_id: u8,
    page_id: u16,
) -> (ix: Instruction)
    ensures
        ix@ == withdraw_full_view(
            user_wallet@,
            user_spl@,
            user_info@,
            asset_pool@,
            asset_pool_spl@,
            pool_summaries@,
            price_summaries@,
            base_pda@,
            token_program@,
            program_id@,
            withdraw_all,
            amount,
            pool_id,
            page_id,
        ),
{
    let mut buffer: Vec<u8> = Vec::new();
    buffer.push(if withdraw_all {
        CMD_WITHDRAW_AND_REMOVE_USER
    } else {
        CMD_WITHDRAW
    });
    let param = WithdrawParam { withdraw_all: flag(withdraw_all), amount, pool_id };
    param.write(&mut buffer);
    let mut accounts = vec![
        AccountMeta::new_readonly(*user_wallet, true),
        AccountMeta::new(*user_spl, false),
    ];
    if withdraw_all {
        accounts.push(AccountMeta::new(get_user_pages_stats_k(), false));
        accounts.push(AccountMeta::new(get_users_page_k(page_id), false));
    }
    accounts.push(AccountMeta::new(*user_info, false));
    accounts.push(AccountMeta::new(*asset_pool, false));
    accounts.push(AccountMeta::new(*asset_pool_spl, false));
    accounts.push(AccountMeta::new(*pool_summaries, false));
    accounts.push(AccountMeta::new_readonly(*price_summaries, false));
    accounts.push(AccountMeta::new_readonly(*base_pda, false));
    accounts.push(AccountMeta::new_readonly(*token_program, false));
    let ix = Instruction { program_id: *program_id, accounts, data: buffer };
    assert(ix@.accounts =~= withdraw_accounts(
        withdraw_all,
        page_id,
        user_wallet@,
        user_spl@,
        user_info@,
        asset_pool@,
        asset_pool_spl@,
        pool_summaries@,
        price_summaries@,
        base_pda@,
        token_program@,
    ));
    assert(ix@.data =~= payload(withdraw_opcode(withdraw_all), param.spec_to_bytes()));
    ix
}

/// The accounts of a loan, in the order in which the program expects them.
pub open spec fn borrow_accounts(
    user_wallet: Seq<u8>,
    user_spl: Seq<u8>,
    user_info: Seq<u8>,
    asset_pool: Seq<u8>,
    asset_pool_spl: Seq<u8>,
    pool_summaries: Seq<u8>,
    price_summaries: Seq<u8>,
    base_pda: Seq<u8>,
    token_program: Seq<u8>,
) -> Seq<AccountMetaView> {
    seq![
        readonly(user_wallet, true),
        writable(user_spl, false),
        writable(user_info, false),
        writable(asset_pool, false),
        writable(asset_pool_spl, false),
        writable(pool_summaries, false),
        readonly(price_summaries, false),
        readonly(base_pda, false),
        readonly(token_program, false),
    ]
}

/// The instruction that `borrow_full` builds.
pub open spec fn borrow_full_view(
    user_wallet: Seq<u8>,
    user_spl: Seq<u8>,
    user_info: Seq<u8>,
    asset_pool: Seq<u8>,
    asset_pool_spl: Seq<u8>,
    pool_summaries: Seq<u8>,
    price_summaries: Seq<u8>,
    base_pda: Seq<u8>,
    token_program: Seq<u8>,
    program_id: Seq<u8>,
    amount: u64,
    pool_id: u8,
) -> InstructionView {
    InstructionView {
        program_id,
        accounts: borrow_accounts(
            user_wallet,
            user_spl,
            user_info,
            asset_pool,
            asset_pool_spl,
            pool_summaries,
            price_summaries,
            base_pda,
            token_program,
        ),
        data: payload(
            CMD_BORROW,
            (BorrowParam {
                amount,
                pool_id,
            }).spec_to_bytes(),
        ),
    }
}

/// The instruction that `borrow` builds: that of `borrow_full` with the
/// program's own accounts and those derived for the user and the pool.
pub open spec fn borrow_view(
    user_wallet: Seq<u8>,
    user_spl: Seq<u8>,
    amount: u64,
    pool_id: u8,
) -> InstructionView {
    borrow_full_view(
        user_wallet,
        user_spl,
        user_info_address(user_wallet),
        asset_pool_address(pool_id),
        asset_pool_spl_address(TOKEN_PROGRAM_ID@, pool_id),
        POOL_SUMMARIES_ID@,
        PRICE_SUMMARIES_ID@,
        BASE_PDA_ID@,
        TOKEN_PROGRAM_ID@,
        PROGRAM_ID@,
        amount,
        pool_id,
    )
}

/// A loan of `amount` from pool `pool_id` to the user `user_wallet`, who signs,
/// paid into the user's token account `user_spl`.
pub fn borrow(
    user_wallet: &Pubkey,
    user_spl: &Pubkey,
    amount: u64,
    pool_id: u8,
) -> (ix: Instruction)
    ensures
        ix@ == borrow_view(
            user_wallet@,
            user_spl@,
            amount,
            pool_id,
        ),
{
    let token_program = token_program_id();
    proof {
        lemma_token_program_is_legal_owner();
    }
    borrow_full(
        user_wallet,
        user_spl,
        &get_user_info_k(user_wallet),
        &get_asset_pool_k(pool_id),
        &get_asset_pool_spl_k(&token_program, pool_id),
        &get_pool_summaries_k(),
        &get_price_summaries_k(),
        &get_base_pda(),
        &token_program,
        &program_id(),
        amount,
        pool_id,
    )
}

/// A loan of `amount` from pool `pool_id`, with every account given.
pub fn borrow_full(
    user_wallet: &Pubkey,
    user_spl: &Pubkey,
    user_info: &Pubkey,
    asset_pool: &Pubkey,
    asset_pool_spl: &Pubkey,
    pool_summaries: &Pubkey,
    price_summaries: &Pubkey,
    base_pda: &Pubkey,
    token_program: &Pubkey,
    program_id: &Pubkey,
    amount: u64,
    pool_id: u8,
) -> (ix: Instruction)
    ensures
        ix@ == borrow_full_view(
            user_wallet@,
            user_spl@,
            user_info@,
            asset_pool@,
            asset_pool_spl@,
            pool_summaries@,
            price_summaries@,
            base_pda@,
            token_program@,
            program_id@,
            amount,
            pool_id,
        ),
{
    let mut buffer: Vec<u8> = Vec::new();
    buffer.push(CMD_BORROW);
    let param = BorrowParam {
        amount,
        pool_id,
    };
    param.write(&mut buffer);
    let accounts = vec![
        AccountMeta::new_readonly(*user_wallet, true),
        AccountMeta::new(*user_spl, false),
        AccountMeta::new(*user_info, false),
        AccountMeta::new(*asset_pool, false),
        AccountMeta::new(*asset_pool_spl, false),
        AccountMeta::new(*pool_summaries, false),
        AccountMeta::new_readonly(*price_summaries, false),
        AccountMeta::new_readonly(*base_pda, false),
        AccountMeta::new_readonly(*token_program, false),
    ];
    let ix = Instruction { program_id: *program_id, accounts, data: buffer };
    assert(ix@.accounts =~= borrow_accounts(
        user_wallet@,
        user_spl@,
        user_info@,
        asset_pool@,
        asset_pool_spl@,
        pool_summaries@,
        price_summaries@,
        base_pda@,
        token_program@,
    ));
    assert(ix@.data =~= payload(CMD_BORROW, param.spec_to_bytes()));
    ix
}

/// The accounts of a repayment, in the order in which the program expects them.
pub open spec fn repay_accounts(
    user_wallet: Seq<u8>,
    user_spl: Seq<u8>,
    user_info: Seq<u8>,
    asset_pool: Seq<u8>,
    asset_pool_spl: Seq<u8>,
    pool_summaries: Seq<u8>,
    token_program: Seq<u8>,
) -> Seq<AccountMetaView> {
    seq![
        readonly(user_wallet, true),
        writable(user_spl, false),
        writable(user_info, false),
        writable(asset_pool, false),
        writable(asset_pool_spl, false),
        writable(pool_summaries, false),
        readonly(token_program, false),
    ]
}

/// The instruction that `repay_full` builds.
pub open spec fn repay_full_view(
    user_wallet: Seq<u8>,
    user_spl: Seq<u8>,
    user_info: Seq<u8>,
    asset_pool: Seq<u8>,
    asset_pool_spl: Seq<u8>,
    pool_summaries: Seq<u8>,
    token_program: Seq<u8>,
    program_id: Seq<u8>,
    repay_all: bool,
    amount: u64,
    pool_id: u8,
) -> InstructionView {
    InstructionView {
        program_id,
        accounts: repay_accounts(
            user_wallet,
            user_spl,
            user_info,
            asset_pool,
            asset_pool_spl,
            pool_summaries,
            token_program,
        ),
        data: payload(
            CMD_REPAY,
            (RepayParam {
                repay_all: flag(repay_all),
                amount,
                pool_id,
            }).spec_to_bytes(),
        ),
    }
}

/// The instruction that `repay` builds: that of `repay_full` with the
/// program's own accounts and those derived for the user and the pool.
pub open spec fn repay_view(
    user_wallet: Seq<u8>,
    user_spl: Seq<u8>,
    repay_all: bool,
    amount: u64,
    pool_id: u8,
) -> InstructionView {
    repay_full_view(
        user_wallet,
        user_spl,
        user_info_address(user_wallet),
        asset_pool_address(pool_id),
        asset_pool_spl_address(TOKEN_PROGRAM_ID@, pool_id),
        POOL_SUMMARIES_ID@,
        TOKEN_PROGRAM_ID@,
        PROGRAM_ID@,
        repay_all,
        amount,
        pool_id,
    )
}

/// A repayment to pool `pool_id` by the user `user_wallet`, who signs, from the
/// user's token account `user_spl`: of the whole debt if `repay_all`, else of
/// `amount`.
pub fn repay(
    user_wallet: &Pubkey,
    user_spl: &Pubkey,
    repay_all: bool,
    amount: u64,
    pool_id: u8,
) -> (ix: Instruction)
    ensures
        ix@ == repay_view(
            user_wallet@,
            user_spl@,
            repay_all,
            amount,
            pool_id,
        ),
{
    let token_program = token_program_id();
    proof {
        lemma_token_program_is_legal_owner();
    }
    repay_full(
        user_wallet,
        user_spl,
        &get_user_info_k(user_wallet),
        &get_asset_pool_k(pool_id),
        &get_asset_pool_spl_k(&token_program, pool_id),
        &get_pool_summaries_k(),
        &token_program,
        &program_id(),
        repay_all,
        amount,
        pool_id,
    )
}

/// A repayment to pool `pool_id`, of the whole debt if `repay_all` and else of
/// `amount`, with every account given.
pub fn repay_full(
    user_wallet: &Pubkey,
    user_spl: &Pubkey,
    user_info: &Pubkey,
    asset_pool: &Pubkey,
    asset_pool_spl: &Pubkey,
    pool_summaries: &Pubkey,
    token_program: &Pubkey,
    program_id: &Pubkey,
    repay_all: bool,
    amount: u64,
    pool_id: u8,
) -> (ix: Instruction)
    ensures
        ix@ == repay_full_view(
            user_wallet@,
            user_spl@,
            user_info@,
            asset_pool@,
            asset_pool_spl@,
            pool_summaries@,
            token_program@,
            program_id@,
            repay_all,
            amount,
            pool_id,
        ),
{
    let mut buffer: Vec<u8> = Vec::new();
    buffer.push(CMD_REPAY);
    let param = RepayParam {
        repay_all: flag(repay_all),
        amount,
        pool_id,
    };
    param.write(&mut buffer);
    let accounts = vec![
        AccountMeta::new_readonly(*user_wallet, true),
        AccountMeta::new(*user_spl, false),
        AccountMeta::new(*user_info, false),
        AccountMeta::new(*asset_pool, false),
        AccountMeta::new(*asset_pool_spl, false),
        AccountMeta::new(*pool_summaries, false),
        AccountMeta::new_readonly(*token_program, false),
    ];
    let ix = Instruction { program_id: *program_id, accounts, data: buffer };
    assert(ix@.accounts =~= repay_accounts(
        user_wallet@,
        user_spl@,
        user_info@,
        asset_pool@,
        asset_pool_spl@,
        pool_summaries@,
        token_program@,
    ));
    assert(ix@.data =~= payload(CMD_REPAY, param.spec_to_bytes()));
    ix
}

/// The accounts of a refresh, in the order in which the program expects them.
pub open spec fn refresh_user_accounts(
    user_wallet: Seq<u8>,
    user_info: Seq<u8>,
    pool_summaries: Seq<u8>,
) -> Seq<AccountMetaView> {
    seq![
        readonly(user_wallet, false),
        writable(user_info, false),
        readonly(pool_summaries, false),
    ]
}

/// The instruction that `refresh_user` builds.
pub open spec fn refresh_user_view(user_wallet: Seq<u8>) -> InstructionView {
    InstructionView {
        program_id: PROGRAM_ID@,
        accounts: refresh_user_accounts(
            user_wallet,
            user_info_address(user_wallet),
            POOL_SUMMARIES_ID@,
        ),
        data: payload(CMD_REFRESH_USER, Seq::empty()),
    }
}

/// Brings the accrued interest of the user `user_wallet` up to date. Nobody
/// has to sign.
pub fn refresh_user(user_wallet: &Pubkey) -> (ix: Instruction)
    ensures
        ix@ == refresh_user_view(user_wallet@),
{
    let mut buffer: Vec<u8> = Vec::new();
    buffer.push(CMD_REFRESH_USER);
    let user_info = get_user_info_k(user_wallet);
    let pool_summaries = get_pool_summaries_k();
    let accounts = vec![
        AccountMeta::new_readonly(*user_wallet, false),
        AccountMeta::new(user_info, false),
        AccountMeta::new_readonly(pool_summaries, false),
    ];
    let ix = Instruction { program_id: program_id(), accounts, data: buffer };
    assert(ix@.accounts =~= refresh_user_accounts(
        user_wallet@,
        user_info_address(user_wallet@),
        POOL_SUMMARIES_ID@,
    ));
    assert(ix@.data =~= payload(CMD_REFRESH_USER, Seq::empty()));
    ix
}

/// The accounts of a liquidation, in the order in which the program expects
/// them.
pub open spec fn extern_liquidate_accounts(
    liquidated_wallet: Seq<u8>,
    liquidator_wallet: Seq<u8>,
    user_info: Seq<u8>,
    base_pda: Seq<u8>,
    liquidator_collateral_spl: Seq<u8>,
    liquidator_borrowed_spl: Seq<u8>,
    collateral_asset_pool: Seq<u8>,
    collateral_asset_pool_spl: Seq<u8>,
    borrowed_asset_pool: Seq<u8>,
    borrowed_asset_pool_spl: Seq<u8>,
    pool_summaries: Seq<u8>,
    token_program: Seq<u8>,
) -> Seq<AccountMetaView> {
    seq![
        readonly(liquidated_wallet, false),
        readonly(liquidator_wallet, true),
        writable(user_info, false),
        readonly(base_pda, false),
        writable(liquidator_collateral_spl, false),
        writable(liquidator_borrowed_spl, false),
        writable(collateral_asset_pool, false),
        writable(collateral_asset_pool_spl, false),
        writable(borrowed_asset_pool, false),
        writable(borrowed_asset_pool_spl, false),
        writable(pool_summaries, false),
        readonly(token_program, false),
    ]
}

/// The instruction that `extern_liquidate_full` builds.
pub open spec fn extern_liquidate_full_view(
    liquidated_wallet: Seq<u8>,
    liquidator_wallet: Seq<u8>,
    user_info: Seq<u8>,
    base_pda: Seq<u8>,
    liquidator_collateral_spl: Seq<u8>,
    liquidator_borrowed_spl: Seq<u8>,
    collateral_asset_pool: Seq<u8>,
    collateral_asset_pool_spl: Seq<u8>,
    borrowed_asset_pool: Seq<u8>,
    borrowed_asset_pool_spl: Seq<u8>,
    pool_summaries: Seq<u8>,
    token_program: Seq<u8>,
    program_id: Seq<u8>,
    repaid_borrow_amount: u64,
    min_collateral_amount: u64,
    borrowed_pool_id: u8,
    collateral_pool_id: u8,
) -> InstructionView {
    InstructionView {
        program_id,
        accounts: extern_liquidate_accounts(
            liquidated_wallet,
            liquidator_wallet,
            user_info,
            base_pda,
            liquidator_collateral_spl,
            liquidator_borrowed_spl,
            collateral_asset_pool,
            collateral_asset_pool_spl,
            borrowed_asset_pool,
            borrowed_asset_pool_spl,
            pool_summaries,
            token_program,
        ),
        data: payload(
            CMD_EXTERN_LIQUIDATE,
            (ExternLiquidateParam {
                min_collateral_amount,
                repaid_borrow_amount,
                collateral_pool_id,
                borrowed_pool_id,
            }).spec_to_bytes(),
        ),
    }
}

/// The instruction that `extern_liquidate` builds: that of `extern_liquidate_full` with the
/// program's own accounts and those derived for the user and the pool.
pub open spec fn extern_liquidate_view(
    liquidated_wallet: Seq<u8>,
    liquidator_wallet: Seq<u8>,
    liquidator_collateral_spl: Seq<u8>,
    liquidator_borrowed_spl: Seq<u8>,
    repaid_borrow_amount: u64,
    min_collateral_amount: u64,
    borrowed_pool_id: u8,
    collateral_pool_id: u8,
) -> InstructionView {
    extern_liquidate_full_view(
        liquidated_wallet,
        liquidator_wallet,
        user_info_address(liquidated_wallet),
        BASE_PDA_ID@,
        liquidator_collateral_spl,
        liquidator_borrowed_spl,
        asset_pool_address(collateral_pool_id),
        asset_pool_spl_address(TOKEN_PROGRAM_ID@, collateral_pool_id),
        asset_pool_address(borrowed_pool_id),
        asset_pool_spl_address(TOKEN_PROGRAM_ID@, borrowed_pool_id),
        POOL_SUMMARIES_ID@,
        TOKEN_PROGRAM_ID@,
        PROGRAM_ID@,
        repaid_borrow_amount,
        min_collateral_amount,
        borrowed_pool_id,
        collateral_pool_id,
    )
}

/// A liquidation of the user `liquidated_wallet` by `liquidator_wallet`, who
/// signs: the liquidator repays `repaid_borrow_amount` of the debt in pool
/// `borrowed_pool_id` from `liquidator_borrowed_spl` and asks for at least
/// `min_collateral_amount` from pool `collateral_pool_id`, paid into
/// `liquidator_collateral_spl`.
pub fn extern_liquidate(
    liquidated_wallet: &Pubkey,
    liquidator_wallet: &Pubkey,
    liquidator_collateral_spl: &Pubkey,
    liquidator_borrowed_spl: &Pubkey,
    repaid_borrow_amount: u64,
    min_collateral_amount: u64,
    borrowed_pool_id: u8,
    collateral_pool_id: u8,
) -> (ix: Instruction)
    ensures
        ix@ == extern_liquidate_view(
            liquidated_wallet@,
            liquidator_wallet@,
            liquidator_collateral_spl@,
            liquidator_borrowed_spl@,
            repaid_borrow_amount,
            min_collateral_amount,
            borrowed_pool_id,
            collateral_pool_id,
        ),
{
    let token_program = token_program_id();
    proof {
        lemma_token_program_is_legal_owner();
    }
    extern_liquidate_full(
        liquidated_wallet,
        liquidator_wallet,
        &get_user_info_k(liquidated_wallet),
        &get_base_pda(),
        liquidator_collateral_spl,
        liquidator_borrowed_spl,
        &get_asset_pool_k(collateral_pool_id),
        &get_asset_pool_spl_k(&token_program, collateral_pool_id),
        &get_asset_pool_k(borrowed_pool_id),
        &get_asset_pool_spl_k(&token_program, borrowed_pool_id),
        &get_pool_summaries_k(),
        &token_program,
        &program_id(),
        repaid_borrow_amount,
        min_collateral_amount,
        borrowed_pool_id,
        collateral_pool_id,
    )
}

/// A liquidation, with every account given: the liquidator repays
/// `repaid_borrow_amount` of the debt in pool `borrowed_pool_id` and asks for at
/// least `min_collateral_amount` from pool `collateral_pool_id` in exchange.
pub fn extern_liquidate_full(
    liquidated_wallet: &Pubkey,
    liquidator_wallet: &Pubkey,
    user_info: &Pubkey,
    base_pda: &Pubkey,
    liquidator_collateral_spl: &Pubkey,
    liquidator_borrowed_spl: &Pubkey,
    collateral_asset_pool: &Pubkey,
    collateral_asset_pool_spl: &Pubkey,
    borrowed_asset_pool: &Pubkey,
    borrowed_asset_pool_spl: &Pubkey,
    pool_summaries: &Pubkey,
    token_program: &Pubkey,
    program_id: &Pubkey,
    repaid_borrow_amount: u64,
    min_collateral_amount: u64,
    borrowed_pool_id: u8,
    collateral_pool_id: u8,
) -> (ix: Instruction)
    ensures
        ix@ == extern_liquidate_full_view(
            liquidated_wallet@,
            liquidator_wallet@,
            user_info@,
            base_pda@,
            liquidator_collateral_spl@,
            liquidator_borrowed_spl@,
            collateral_asset_pool@,
            collateral_asset_pool_spl@,
            borrowed_asset_pool@,
            borrowed_asset_pool_spl@,
            pool_summaries@,
            token_program@,
            program_id@,
            repaid_borrow_amount,
            min_collateral_amount,
            borrowed_pool_id,
            collateral_pool_id,
        ),
{
    let mut buffer: Vec<u8> = Vec::new();
    buffer.push(CMD_EXTERN_LIQUIDATE);
    let param = ExternLiquidateParam {
        min_collateral_amount,
        repaid_borrow_amount,
        collateral_pool_id,
        borrowed_pool_id,
    };
    param.write(&mut buffer);
    let accounts = vec![
        AccountMeta::new_readonly(*liquidated_wallet, false),
        AccountMeta::new_readonly(*liquidator_wallet, true),
        AccountMeta::new(*user_info, false),
        AccountMeta::new_readonly(*base_pda, false),
        AccountMeta::new(*liquidator_collateral_spl, false),
        AccountMeta::new(*liquidator_borrowed_spl, false),
        AccountMeta::new(*collateral_asset_pool, false),
        AccountMeta::new(*collateral_asset_pool_spl, false),
        AccountMeta::new(*borrowed_asset_pool, false),
        AccountMeta::new(*borrowed_asset_pool_spl, false),
        AccountMeta::new(*pool_summaries, false),
        AccountMeta::new_readonly(*token_program, false),
    ];
    let ix = Instruction { program_id: *program_id, accounts, data: buffer };
    assert(ix@.accounts =~= extern_liquidate_accounts(
        liquidated_wallet@,
        liquidator_wallet@,
        user_info@,
        base_pda@,
        liquidator_collateral_spl@,
        liquidator_borrowed_spl@,
        collateral_asset_pool@,
        collateral_asset_pool_spl@,
        borrowed_asset_pool@,
        borrowed_asset_pool_spl@,
        pool_summaries@,
        token_program@,
    ));
    assert(ix@.data =~= payload(CMD_EXTERN_LIQUIDATE, param.spec_to_bytes()));
    ix
}

/// The accounts of the command that makes a reward claimable, in the order in
/// which the program expects them. The wallet fills two places, one as the
/// signer and one as a plain account.
pub open spec fn make_lm_reward_claimable_accounts(
    user_wallet: Seq<u8>,
    user_info: Seq<u8>,
    pool_summaries: Seq<u8>,
) -> Seq<AccountMetaView> {
    seq![
        readonly(user_wallet, true),
        readonly(user_wallet, false),
        writable(user_info, false),
        writable(pool_summaries, false),
    ]
}

/// The instruction that `make_lm_reward_claimable` builds.
pub open spec fn make_lm_reward_claimable_view(user_wallet: Seq<u8>) -> InstructionView {
    InstructionView {
        program_id: PROGRAM_ID@,
        accounts: make_lm_reward_claimable_accounts(
            user_wallet,
            user_info_address(user_wallet),
            POOL_SUMMARIES_ID@,
        ),
        data: payload(CMD_MAKE_LM_REWARD_AVAILABLE, Seq::empty()),
    }
}

/// Makes the liquidity-mining reward of the user `user_wallet` that has
/// finished vesting claimable. A reward is earned for a week and then vests
/// for a week; the program works out how much has vested.
///
/// `claim_apt_lm_reward` reads the cutoff that this command updates: send this
/// command first, in the same transaction.
pub fn make_lm_reward_claimable(user_wallet: &Pubkey) -> (ix: Instruction)
    ensures
        ix@ == make_lm_reward_claimable_view(user_wallet@),
{
    let user_info = get_user_info_k(user_wallet);
    let pool_summaries = get_pool_summaries_k();
    let mut buffer: Vec<u8> = Vec::new();
    buffer.push(CMD_MAKE_LM_REWARD_AVAILABLE);
    let accounts = vec![
        AccountMeta::new_readonly(*user_wallet, true),
        AccountMeta::new_readonly(*user_wallet, false),
        AccountMeta::new(user_info, false),
        AccountMeta::new(pool_summaries, false),
    ];
    let ix = Instruction { program_id: program_id(), accounts, data: buffer };
    assert(ix@.accounts =~= make_lm_reward_claimable_accounts(
        user_wallet@,
        user_info_address(user_wallet@),
        POOL_SUMMARIES_ID@,
    ));
    assert(ix@.data =~= payload(CMD_MAKE_LM_REWARD_AVAILABLE, Seq::empty()));
    ix
}

/// The accounts of a reward claim, in the order in which the program expects
/// them.
pub open spec fn claim_apt_lm_reward_accounts(
    base_pda: Seq<u8>,
    user_wallet: Seq<u8>,
    user_info: Seq<u8>,
    user_apt_spl: Seq<u8>,
    lm_apt_vault: Seq<u8>,
    pool_summaries: Seq<u8>,
    price_summaries: Seq<u8>,
    token_program: Seq<u8>,
) -> Seq<AccountMetaView> {
    seq![
        readonly(base_pda, false),
        readonly(user_wallet, true),
        writable(user_info, false),
        writable(user_apt_spl, false),
        writable(lm_apt_vault, false),
        writable(pool_summaries, false),
        readonly(price_summaries, false),
        readonly(token_program, false),
    ]
}

/// The instruction that `claim_apt_lm_reward` builds.
pub open spec fn claim_apt_lm_reward_view(
    user_wallet: Seq<u8>,
    user_apt_spl: Seq<u8>,
) -> InstructionView {
    InstructionView {
        program_id: PROGRAM_ID@,
        accounts: claim_apt_lm_reward_accounts(
            BASE_PDA_ID@,
            user_wallet,
            user_info_address(user_wallet),
            user_apt_spl,
            LM_APT_VAULT_ID@,
            POOL_SUMMARIES_ID@,
            PRICE_SUMMARIES_ID@,
            TOKEN_PROGRAM_ID@,
        ),
        data: payload(CMD_CLAIM_APT_LM_REWARD, Seq::empty()),
    }
}

/// Pays the claimable liquidity-mining reward of the user `user_wallet`, who
/// signs, into the user's token account `user_apt_spl`.
pub fn claim_apt_lm_reward(user_wallet: &Pubkey, user_apt_spl: &Pubkey) -> (ix: Instruction)
    ensures
        ix@ == claim_apt_lm_reward_view(user_wallet@, user_apt_spl@),
{
    let base_pda = get_base_pda();
    let user_info = get_user_info_k(user_wallet);
    let lm_apt_vault = get_lm_apt_vault_k();
    let pool_summaries = get_pool_summaries_k();
    let price_summaries = get_price_summaries_k();
    let mut buffer: Vec<u8> = Vec::new();
    buffer.push(CMD_CLAIM_APT_LM_REWARD);
    let accounts = vec![
        AccountMeta::new_readonly(base_pda, false),
        AccountMeta::new_readonly(*user_wallet, true),
        AccountMeta::new(user_info, false),
        AccountMeta::new(*user_apt_spl, false),
        AccountMeta::new(lm_apt_vault, false),
        AccountMeta::new(pool_summaries, false),
        AccountMeta::new_readonly(price_summaries, false),
        AccountMeta::new_readonly(token_program_id(), false),
    ];
    let ix = Instruction { program_id: program_id(), accounts, data: buffer };
    assert(ix@.accounts =~= claim_apt_lm_reward_accounts(
        BASE_PDA_ID@,
        user_wallet@,
        user_info_address(user_wallet@),
        user_apt_spl@,
        LM_APT_VAULT_ID@,
        POOL_SUMMARIES_ID@,
        PRICE_SUMMARIES_ID@,
        TOKEN_PROGRAM_ID@,
    ));
    assert(ix@.data =~= payload(CMD_CLAIM_APT_LM_REWARD, Seq::empty()));
    ix
}

} // verus!

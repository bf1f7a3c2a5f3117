//! The accounts of the lending program as the client reads them.
//!
//! An account is a packed record: its fields follow one another in a fixed
//! order, each a little-endian integer or a run of bytes, with no padding. The
//! offsets below are the format. The lending program owns the accounts and
//! is alone in changing them: a client reads them, and writes a record only
//! to keep or to hand on a copy.
//!
//! Fields that the program keeps as 64-bit binary floating-point numbers are
//! handed on by their bit pattern: the library moves them and never computes
//! with them.

use crate::codec::{
    field, le_bytes, le_value, lemma_append_field, lemma_append_keeps, lemma_append_twice,
    lemma_field_bytes, lemma_field_of_subrange, lemma_le_bytes_len, lemma_pow256_values,
    lemma_subrange_join, read_bytes32, read_u128, read_u16, read_u64, read_u8, write_bytes,
    write_le,
};
use crate::error::ApricotError;
use crate::pubkey::Pubkey;
use vstd::prelude::*;

verus! {

/// Number of low-order bits of a raw amount that hold the fraction of a
/// native unit.
pub const NATIVE_RAW_SHIFT: usize = 24;

/// The number of raw units in one native unit: two to the power of
/// `NATIVE_RAW_SHIFT`.
pub const RAW_PER_NATIVE: u128 = 0x100_0000;

/// Most positions that one user can hold.
pub const MAX_ASSETS_PER_USER: usize = 16;

/// Length of a token's name in a pool's state.
pub const TOKEN_NAME_SIZE: usize = 32;

/// Size in bytes of a position in a user's account.
pub const USER_ASSET_INFO_SIZE: usize = 98;

/// Size in bytes of the reward block in a user's account.
pub const REWARD_INFO_SIZE: usize = 104;

/// Size in bytes of a user's account.
pub const USER_INFO_SIZE: usize = 1699;

/// Size in bytes of a pool's state.
pub const ASSET_POOL_SIZE: usize = 459;

/// An amount of tokens with 24 binary places below the native unit, so that
/// interest accrues without loss. Amounts are compared by the whole value, the
/// fraction included.
#[derive(Copy, Clone, Eq, PartialEq, PartialOrd, Ord, Debug)]
pub struct RawAmt {
    pub amt: u128,
}

impl RawAmt {
    /// The whole native units of the amount, cut to 64 bits: the fraction is
    /// dropped, not rounded.
    pub open spec fn spec_to_native_amount(self) -> u64 {
        ((self.amt as nat / 0x100_0000) % 0x1_0000_0000_0000_0000) as u64
    }

    /// The amount that is `raw` raw units.
    pub fn new(raw: u128) -> (amount: RawAmt)
        ensures
            amount.amt == raw,
    {
        RawAmt { amt: raw }
    }

    /// The amount that 16 bytes hold, least significant byte first.
    pub fn from_le_bytes(bytes: &[u8; 16]) -> (amount: RawAmt)
        ensures
            amount.amt == le_value(bytes@),
    {
        assert(bytes@.subrange(0, 16) =~= bytes@);
        RawAmt { amt: read_u128(bytes.as_slice(), 0) }
    }

    /// The 16 bytes that hold the amount, least significant byte first.
    pub fn to_le_bytes(&self) -> (bytes: Vec<u8>)
        ensures
            bytes@ == le_bytes(self.amt as nat, 16),
            bytes@.len() == 16,
    {
        let mut bytes: Vec<u8> = Vec::new();
        write_le(&mut bytes, self.amt, 16);
        proof {
            lemma_le_bytes_len(self.amt as nat, 16);
            assert(bytes@ =~= le_bytes(self.amt as nat, 16));
        }
        bytes
    }

    /// The amount that is exactly `native` native units.
    pub fn from_native_amount(native: u64) -> (amount: RawAmt)
        ensures
            amount.amt == native * 0x100_0000,
    {
        let wide: u128 = native as u128;
        assert(wide << 24 == wide * 0x100_0000) by (bit_vector)
            requires
                wide <= 0xffff_ffff_ffff_ffff,
        ;
        RawAmt { amt: wide << 24 }
    }

    /// The whole native units of the amount, cut to 64 bits: the fraction is
    /// dropped, not rounded.
    pub fn to_native_amount(&self) -> (native: u64)
        ensures
            native == self.spec_to_native_amount(),
    {
        let amt = self.amt;
        assert((amt >> 24) as u64 == (amt / 0x100_0000) % 0x1_0000_0000_0000_0000) by (bit_vector);
        #[verifier::truncate]
        ((amt >> 24) as u64)
    }

    /// Whether this amount is smaller than `other`, by the whole value.
    pub fn is_less_than(&self, other: &RawAmt) -> (less: bool)
        ensures
            less == (self.amt < other.amt),
    {
        self.amt < other.amt
    }

    /// An amount of whole native units is read back as it was written.
    pub proof fn lemma_native_roundtrip(native: u64)
        ensures
            (RawAmt { amt: (native * 0x100_0000) as u128 }).spec_to_native_amount() == native,
    {
        let raw: nat = (native * 0x100_0000) as nat;
        assert(raw / 0x100_0000 == native);
    }

    /// The fraction of a native unit never shows in the native amount.
    pub proof fn lemma_native_truncates(native: u64, fraction: u128)
        requires
            fraction < 0x100_0000,
        ensures
            (RawAmt { amt: (native * 0x100_0000 + fraction) as u128 }).spec_to_native_amount()
                == native,
    {
        let raw: nat = (native * 0x100_0000 + fraction) as nat;
        assert(raw / 0x100_0000 == native);
    }
}

/// A 64-bit binary floating-point number, held by its bit pattern.
#[derive(Copy, Clone, Eq, PartialEq, Debug)]
pub struct Float64 {
    pub bits: u64,
}

/// A user's position in one pool.
#[derive(Clone, Copy, Debug, PartialEq, Eq)]
pub struct UserAssetInfo {
    /// Number of the pool.
    pub pool_id: u8,
    /// Whether the deposit serves as collateral: 1 if so, else 0.
    pub use_as_collateral: u8,
    /// Principal of the deposit.
    pub deposit_amount: RawAmt,
    /// Interest accrued on the deposit, in native units.
    pub deposit_interests: u64,
    /// Compounding index of the pool's deposits at the last update.
    pub deposit_index: Float64,
    /// Reward earned by the deposit, in native units.
    pub reward_deposit_amount: Float64,
    /// Reward index of the pool's deposits at the last update.
    pub reward_deposit_index: Float64,
    /// Principal of the debt.
    pub borrow_amount: RawAmt,
    /// Interest accrued on the debt, in native units.
    pub borrow_interests: u64,
    /// Compounding index of the pool's debts at the last update.
    pub borrow_index: Float64,
    /// Reward earned by the debt, in native units.
    pub reward_borrow_amount: Float64,
    /// Reward index of the pool's debts at the last update.
    pub reward_borrow_index: Float64,
}

impl UserAssetInfo {
    /// The position that the 98 bytes of `data` from `base` on hold.
    pub open spec fn spec_read(data: Seq<u8>, base: int) -> UserAssetInfo {
        UserAssetInfo {
            pool_id: field(data, base + 0, 1) as u8,
            use_as_collateral: field(data, base + 1, 1) as u8,
            deposit_amount: RawAmt { amt: field(data, base + 2, 16) as u128 },
            deposit_interests: field(data, base + 18, 8) as u64,
            deposit_index: Float64 { bits: field(data, base + 26, 8) as u64 },
            reward_deposit_amount: Float64 { bits: field(data, base + 34, 8) as u64 },
            reward_deposit_index: Float64 { bits: field(data, base + 42, 8) as u64 },
            borrow_amount: RawAmt { amt: field(data, base + 50, 16) as u128 },
            borrow_interests: field(data, base + 66, 8) as u64,
            borrow_index: Float64 { bits: field(data, base + 74, 8) as u64 },
            reward_borrow_amount: Float64 { bits: field(data, base + 82, 8) as u64 },
            reward_borrow_index: Float64 { bits: field(data, base + 90, 8) as u64 },
        }
    }

    /// Reads the position that starts at `base`.
    pub fn read(data: &[u8], base: usize) -> (info: UserAssetInfo)
        requires
            base + USER_ASSET_INFO_SIZE <= data.len(),
        ensures
            info == Self::spec_read(data@, base as int),
    {
        UserAssetInfo {
            pool_id: read_u8(data, base + 0),
            use_as_collateral: read_u8(data, base + 1),
            deposit_amount: RawAmt { amt: read_u128(data, base + 2) },
            deposit_interests: read_u64(data, base + 18),
            deposit_index: Float64 { bits: read_u64(data, base + 26) },
            reward_deposit_amount: Float64 { bits: read_u64(data, base + 34) },
            reward_deposit_index: Float64 { bits: read_u64(data, base + 42) },
            borrow_amount: RawAmt { amt: read_u128(data, base + 50) },
            borrow_interests: read_u64(data, base + 66),
            borrow_index: Float64 { bits: read_u64(data, base + 74) },
            reward_borrow_amount: Float64 { bits: read_u64(data, base + 82) },
            reward_borrow_index: Float64 { bits: read_u64(data, base + 90) },
        }
    }

    /// The position on the wire: its fields in their order, each least significant
    /// byte first.
    pub open spec fn spec_to_bytes(self) -> Seq<u8> {
        le_bytes(self.pool_id as nat, 1)
            + le_bytes(self.use_as_collateral as nat, 1)
            + le_bytes(self.deposit_amount.amt as nat, 16)
            + le_bytes(self.deposit_interests as nat, 8)
            + le_bytes(self.deposit_index.bits as nat, 8)
            + le_bytes(self.reward_deposit_amount.bits as nat, 8)
            + le_bytes(self.reward_deposit_index.bits as nat, 8)
            + le_bytes(self.borrow_amount.amt as nat, 16)
            + le_bytes(self.borrow_interests as nat, 8)
            + le_bytes(self.borrow_index.bits as nat, 8)
            + le_bytes(self.reward_borrow_amount.bits as nat, 8)
            + le_bytes(self.reward_borrow_index.bits as nat, 8)
    }

    /// Appends the position to `out`.
    pub fn write(&self, out: &mut Vec<u8>)
        ensures
            final(out)@ == old(out)@ + self.spec_to_bytes(),
    {
        let ghost before = out@;
        write_le(out, self.pool_id as u128, 1);
        write_le(out, self.use_as_collateral as u128, 1);
        write_le(out, self.deposit_amount.amt, 16);
        write_le(out, self.deposit_interests as u128, 8);
        write_le(out, self.deposit_index.bits as u128, 8);
        write_le(out, self.reward_deposit_amount.bits as u128, 8);
        write_le(out, self.reward_deposit_index.bits as u128, 8);
        write_le(out, self.borrow_amount.amt, 16);
        write_le(out, self.borrow_interests as u128, 8);
        write_le(out, self.borrow_index.bits as u128, 8);
        write_le(out, self.reward_borrow_amount.bits as u128, 8);
        write_le(out, self.reward_borrow_index.bits as u128, 8);
        assert(out@ =~= before + self.spec_to_bytes());
    }

    /// A position that is written and read back is the same position.
    pub proof fn lemma_roundtrip(info: UserAssetInfo)
        ensures
            info.spec_to_bytes().len() == USER_ASSET_INFO_SIZE,
            Self::spec_read(info.spec_to_bytes(), 0) == info,
    {
        lemma_pow256_values();
        let piece0 = le_bytes(info.pool_id as nat, 1);
        let piece1 = le_bytes(info.use_as_collateral as nat, 1);
        let piece2 = le_bytes(info.deposit_amount.amt as nat, 16);
        let piece3 = le_bytes(info.deposit_interests as nat, 8);
        let piece4 = le_bytes(info.deposit_index.bits as nat, 8);
        let piece5 = le_bytes(info.reward_deposit_amount.bits as nat, 8);
        let piece6 = le_bytes(info.reward_deposit_index.bits as nat, 8);
        let piece7 = le_bytes(info.borrow_amount.amt as nat, 16);
        let piece8 = le_bytes(info.borrow_interests as nat, 8);
        let piece9 = le_bytes(info.borrow_index.bits as nat, 8);
        let piece10 = le_bytes(info.reward_borrow_amount.bits as nat, 8);
        let piece11 = le_bytes(info.reward_borrow_index.bits as nat, 8);
        let b0 = Seq::<u8>::empty();
        let b1 = b0 + piece0;
        lemma_append_field(b0, info.pool_id as nat, 1, b1);
        let b2 = b1 + piece1;
        lemma_append_field(b1, info.use_as_collateral as nat, 1, b2);
        let b3 = b2 + piece2;
        lemma_append_field(b2, info.deposit_amount.amt as nat, 16, b3);
        let b4 = b3 + piece3;
        lemma_append_field(b3, info.deposit_interests as nat, 8, b4);
        let b5 = b4 + piece4;
        lemma_append_field(b4, info.deposit_index.bits as nat, 8, b5);
        let b6 = b5 + piece5;
        lemma_append_field(b5, info.reward_deposit_amount.bits as nat, 8, b6);
        let b7 = b6 + piece6;
        lemma_append_field(b6, info.reward_deposit_index.bits as nat, 8, b7);
        let b8 = b7 + piece7;
        lemma_append_field(b7, info.borrow_amount.amt as nat, 16, b8);
        let b9 = b8 + piece8;
        lemma_append_field(b8, info.borrow_interests as nat, 8, b9);
        let b10 = b9 + piece9;
        lemma_append_field(b9, info.borrow_index.bits as nat, 8, b10);
        let b11 = b10 + piece10;
        lemma_append_field(b10, info.reward_borrow_amount.bits as nat, 8, b11);
        let b12 = b11 + piece11;
        lemma_append_field(b11, info.reward_borrow_index.bits as nat, 8, b12);
        assert(info.spec_to_bytes() =~= b12);
    }

    /// A position is read from its own 98 bytes alone.
    pub proof fn lemma_read_within(data: Seq<u8>, base: int)
        requires
            0 <= base,
            base + USER_ASSET_INFO_SIZE <= data.len(),
        ensures
            Self::spec_read(data, base) == Self::spec_read(
                data.subrange(base, base + USER_ASSET_INFO_SIZE),
                0,
            ),
    {
        lemma_field_of_subrange(data, base, 98, 0, 1);
        lemma_field_of_subrange(data, base, 98, 1, 1);
        lemma_field_of_subrange(data, base, 98, 2, 16);
        lemma_field_of_subrange(data, base, 98, 18, 8);
        lemma_field_of_subrange(data, base, 98, 26, 8);
        lemma_field_of_subrange(data, base, 98, 34, 8);
        lemma_field_of_subrange(data, base, 98, 42, 8);
        lemma_field_of_subrange(data, base, 98, 50, 16);
        lemma_field_of_subrange(data, base, 98, 66, 8);
        lemma_field_of_subrange(data, base, 98, 74, 8);
        lemma_field_of_subrange(data, base, 98, 82, 8);
        lemma_field_of_subrange(data, base, 98, 90, 8);
    }

    /// Every byte of a position belongs to a field: reading a position and
    /// writing what was read gives its 98 bytes again.
    pub proof fn lemma_unpadded(data: Seq<u8>, base: int)
        requires
            0 <= base,
            base + USER_ASSET_INFO_SIZE <= data.len(),
        ensures
            Self::spec_read(data, base).spec_to_bytes() == data.subrange(
                base,
                base + USER_ASSET_INFO_SIZE,
            ),
    {
        lemma_pow256_values();
        lemma_field_bytes(data, base + 0, 1);
        lemma_field_bytes(data, base + 1, 1);
        lemma_subrange_join(data, base, base + 1, base + 2);
        lemma_field_bytes(data, base + 2, 16);
        lemma_subrange_join(data, base, base + 2, base + 18);
        lemma_field_bytes(data, base + 18, 8);
        lemma_subrange_join(data, base, base + 18, base + 26);
        lemma_field_bytes(data, base + 26, 8);
        lemma_subrange_join(data, base, base + 26, base + 34);
        lemma_field_bytes(data, base + 34, 8);
        lemma_subrange_join(data, base, base + 34, base + 42);
        lemma_field_bytes(data, base + 42, 8);
        lemma_subrange_join(data, base, base + 42, base + 50);
        lemma_field_bytes(data, base + 50, 16);
        lemma_subrange_join(data, base, base + 50, base + 66);
        lemma_field_bytes(data, base + 66, 8);
        lemma_subrange_join(data, base, base + 66, base + 74);
        lemma_field_bytes(data, base + 74, 8);
        lemma_subrange_join(data, base, base + 74, base + 82);
        lemma_field_bytes(data, base + 82, 8);
        lemma_subrange_join(data, base, base + 82, base + 90);
        lemma_field_bytes(data, base + 90, 8);
        lemma_subrange_join(data, base, base + 90, base + 98);
    }
}

/// A user's rewards: what is vesting and what can be claimed.
#[derive(Clone, Copy, Debug, PartialEq, Eq)]
pub struct RewardInfo {
    /// Rewards of earlier periods that are still vesting.
    pub vesting: [Float64; 4],
    /// Reward earned in the week before.
    pub prev_week_apt: Float64,
    /// Not in use.
    pub unused: [Float64; 2],
    /// Reward that is vesting.
    pub vesting_apt: Float64,
    /// Claimable reward in APT.
    pub available_apt: Float64,
    /// Claimable reward in MNDE.
    pub available_mnde: Float64,
    /// Claimable reward in wLDO.
    pub available_wldo: Float64,
    /// Claimable reward in b180SOCN.
    pub available_b180socn: Float64,
    /// Claimable reward in wLUNA.
    pub available_wluna: Float64,
}

/// A user's rewards, with the arrays as sequences.
pub struct RewardInfoView {
    pub vesting: Seq<Float64>,
    pub prev_week_apt: Float64,
    pub unused: Seq<Float64>,
    pub vesting_apt: Float64,
    pub available_apt: Float64,
    pub available_mnde: Float64,
    pub available_wldo: Float64,
    pub available_b180socn: Float64,
    pub available_wluna: Float64,
}

impl View for RewardInfo {
    type V = RewardInfoView;

    open spec fn view(&self) -> RewardInfoView {
        RewardInfoView {
            vesting: self.vesting@,
            prev_week_apt: self.prev_week_apt,
            unused: self.unused@,
            vesting_apt: self.vesting_apt,
            available_apt: self.available_apt,
            available_mnde: self.available_mnde,
            available_wldo: self.available_wldo,
            available_b180socn: self.available_b180socn,
            available_wluna: self.available_wluna,
        }
    }
}

impl RewardInfoView {
    /// Whether the arrays have their four and their two numbers.
    pub open spec fn well_formed(self) -> bool {
        self.vesting.len() == 4 && self.unused.len() == 2
    }

    /// The rewards on the wire: the numbers in their order, each least
    /// significant byte first.
    pub open spec fn spec_to_bytes(self) -> Seq<u8> {
        le_bytes(self.vesting[0].bits as nat, 8)
            + le_bytes(self.vesting[1].bits as nat, 8)
            + le_bytes(self.vesting[2].bits as nat, 8)
            + le_bytes(self.vesting[3].bits as nat, 8)
            + le_bytes(self.prev_week_apt.bits as nat, 8)
            + le_bytes(self.unused[0].bits as nat, 8)
            + le_bytes(self.unused[1].bits as nat, 8)
            + le_bytes(self.vesting_apt.bits as nat, 8)
            + le_bytes(self.available_apt.bits as nat, 8)
            + le_bytes(self.available_mnde.bits as nat, 8)
            + le_bytes(self.available_wldo.bits as nat, 8)
            + le_bytes(self.available_b180socn.bits as nat, 8)
            + le_bytes(self.available_wluna.bits as nat, 8)
    }
}

/// The floating-point number that the 8 bytes of `data` at `offset` hold.
pub open spec fn float_at(data: Seq<u8>, offset: int) -> Float64 {
    Float64 { bits: field(data, offset, 8) as u64 }
}

/// Reads the floating-point number at `offset`.
pub fn read_float(data: &[u8], offset: usize) -> (number: Float64)
    requires
        offset + 8 <= data.len(),
    ensures
        number == float_at(data@, offset as int),
{
    Float64 { bits: read_u64(data, offset) }
}

impl RewardInfo {
    /// The rewards that the 104 bytes of `data` from `base` on hold.
    pub open spec fn spec_read(data: Seq<u8>, base: int) -> RewardInfoView {
        RewardInfoView {
            vesting: Seq::new(4, |i: int| float_at(data, base + 8 * i)),
            prev_week_apt: float_at(data, base + 32),
            unused: Seq::new(2, |i: int| float_at(data, base + 40 + 8 * i)),
            vesting_apt: float_at(data, base + 56),
            available_apt: float_at(data, base + 64),
            available_mnde: float_at(data, base + 72),
            available_wldo: float_at(data, base + 80),
            available_b180socn: float_at(data, base + 88),
            available_wluna: float_at(data, base + 96),
        }
    }

    /// Appends the rewards to `out`.
    pub fn write(&self, out: &mut Vec<u8>)
        ensures
            final(out)@ == old(out)@ + self@.spec_to_bytes(),
    {
        let ghost before = out@;
        write_le(out, self.vesting[0].bits as u128, 8);
        write_le(out, self.vesting[1].bits as u128, 8);
        write_le(out, self.vesting[2].bits as u128, 8);
        write_le(out, self.vesting[3].bits as u128, 8);
        write_le(out, self.prev_week_apt.bits as u128, 8);
        write_le(out, self.unused[0].bits as u128, 8);
        write_le(out, self.unused[1].bits as u128, 8);
        write_le(out, self.vesting_apt.bits as u128, 8);
        write_le(out, self.available_apt.bits as u128, 8);
        write_le(out, self.available_mnde.bits as u128, 8);
        write_le(out, self.available_wldo.bits as u128, 8);
        write_le(out, self.available_b180socn.bits as u128, 8);
        write_le(out, self.available_wluna.bits as u128, 8);
        assert(out@ =~= before + self@.spec_to_bytes());
    }

    /// Rewards that are written and read back are the same rewards.
    pub proof fn lemma_roundtrip(info: RewardInfoView)
        requires
            info.well_formed(),
        ensures
            info.spec_to_bytes().len() == REWARD_INFO_SIZE,
            Self::spec_read(info.spec_to_bytes(), 0) == info,
    {
        lemma_pow256_values();
        let b0 = Seq::<u8>::empty();
        let b1 = b0 + le_bytes(info.vesting[0].bits as nat, 8);
        lemma_append_field(b0, info.vesting[0].bits as nat, 8, b1);
        let b2 = b1 + le_bytes(info.vesting[1].bits as nat, 8);
        lemma_append_field(b1, info.vesting[1].bits as nat, 8, b2);
        let b3 = b2 + le_bytes(info.vesting[2].bits as nat, 8);
        lemma_append_field(b2, info.vesting[2].bits as nat, 8, b3);
        let b4 = b3 + le_bytes(info.vesting[3].bits as nat, 8);
        lemma_append_field(b3, info.vesting[3].bits as nat, 8, b4);
        let b5 = b4 + le_bytes(info.prev_week_apt.bits as nat, 8);
        lemma_append_field(b4, info.prev_week_apt.bits as nat, 8, b5);
        let b6 = b5 + le_bytes(info.unused[0].bits as nat, 8);
        lemma_append_field(b5, info.unused[0].bits as nat, 8, b6);
        let b7 = b6 + le_bytes(info.unused[1].bits as nat, 8);
        lemma_append_field(b6, info.unused[1].bits as nat, 8, b7);
        let b8 = b7 + le_bytes(info.vesting_apt.bits as nat, 8);
        lemma_append_field(b7, info.vesting_apt.bits as nat, 8, b8);
        let b9 = b8 + le_bytes(info.available_apt.bits as nat, 8);
        lemma_append_field(b8, info.available_apt.bits as nat, 8, b9);
        let b10 = b9 + le_bytes(info.available_mnde.bits as nat, 8);
        lemma_append_field(b9, info.available_mnde.bits as nat, 8, b10);
        let b11 = b10 + le_bytes(info.available_wldo.bits as nat, 8);
        lemma_append_field(b10, info.available_wldo.bits as nat, 8, b11);
        let b12 = b11 + le_bytes(info.available_b180socn.bits as nat, 8);
        lemma_append_field(b11, info.available_b180socn.bits as nat, 8, b12);
        let b13 = b12 + le_bytes(info.available_wluna.bits as nat, 8);
        lemma_append_field(b12, info.available_wluna.bits as nat, 8, b13);
        assert(info.spec_to_bytes() =~= b13);
        let read = Self::spec_read(b13, 0);
        assert(read.vesting =~= info.vesting);
        assert(read.unused =~= info.unused);
    }

    /// Every byte of the rewards belongs to a number: reading the rewards and
    /// writing what was read gives their 104 bytes again.
    pub proof fn lemma_unpadded(data: Seq<u8>, base: int)
        requires
            0 <= base,
            base + REWARD_INFO_SIZE <= data.len(),
        ensures
            Self::spec_read(data, base).well_formed(),
            Self::spec_read(data, base).spec_to_bytes() == data.subrange(
                base,
                base + REWARD_INFO_SIZE,
            ),
    {
        lemma_pow256_values();
        lemma_field_bytes(data, base + 0, 8);
        lemma_field_bytes(data, base + 8, 8);
        lemma_subrange_join(data, base, base + 8, base + 16);
        lemma_field_bytes(data, base + 16, 8);
        lemma_subrange_join(data, base, base + 16, base + 24);
        lemma_field_bytes(data, base + 24, 8);
        lemma_subrange_join(data, base, base + 24, base + 32);
        lemma_field_bytes(data, base + 32, 8);
        lemma_subrange_join(data, base, base + 32, base + 40);
        lemma_field_bytes(data, base + 40, 8);
        lemma_subrange_join(data, base, base + 40, base + 48);
        lemma_field_bytes(data, base + 48, 8);
        lemma_subrange_join(data, base, base + 48, base + 56);
        lemma_field_bytes(data, base + 56, 8);
        lemma_subrange_join(data, base, base + 56, base + 64);
        lemma_field_bytes(data, base + 64, 8);
        lemma_subrange_join(data, base, base + 64, base + 72);
        lemma_field_bytes(data, base + 72, 8);
        lemma_subrange_join(data, base, base + 72, base + 80);
        lemma_field_bytes(data, base + 80, 8);
        lemma_subrange_join(data, base, base + 80, base + 88);
        lemma_field_bytes(data, base + 88, 8);
        lemma_subrange_join(data, base, base + 88, base + 96);
        lemma_field_bytes(data, base + 96, 8);
        lemma_subrange_join(data, base, base + 96, base + 104);
    }

    /// Rewards are read from their own 104 bytes alone.
    pub proof fn lemma_read_within(data: Seq<u8>, base: int)
        requires
            0 <= base,
            base + REWARD_INFO_SIZE <= data.len(),
        ensures
            Self::spec_read(data, base) == Self::spec_read(
                data.subrange(base, base + REWARD_INFO_SIZE),
                0,
            ),
    {
        let part = data.subrange(base, base + REWARD_INFO_SIZE);
        lemma_field_of_subrange(data, base, 104, 0, 8);
        lemma_field_of_subrange(data, base, 104, 8, 8);
        lemma_field_of_subrange(data, base, 104, 16, 8);
        lemma_field_of_subrange(data, base, 104, 24, 8);
        lemma_field_of_subrange(data, base, 104, 32, 8);
        lemma_field_of_subrange(data, base, 104, 40, 8);
        lemma_field_of_subrange(data, base, 104, 48, 8);
        lemma_field_of_subrange(data, base, 104, 56, 8);
        lemma_field_of_subrange(data, base, 104, 64, 8);
        lemma_field_of_subrange(data, base, 104, 72, 8);
        lemma_field_of_subrange(data, base, 104, 80, 8);
        lemma_field_of_subrange(data, base, 104, 88, 8);
        lemma_field_of_subrange(data, base, 104, 96, 8);
        assert(Self::spec_read(data, base).vesting =~= Self::spec_read(part, 0).vesting);
        assert(Self::spec_read(data, base).unused =~= Self::spec_read(part, 0).unused);
    }

    /// Reads the rewards that start at `base`.
    pub fn read(data: &[u8], base: usize) -> (info: RewardInfo)
        requires
            base + REWARD_INFO_SIZE <= data.len(),
        ensures
            info@ == Self::spec_read(data@, base as int),
    {
        let info = RewardInfo {
            vesting: [
                read_float(data, base),
                read_float(data, base + 8),
                read_float(data, base + 16),
                read_float(data, base + 24),
            ],
            prev_week_apt: read_float(data, base + 32),
            unused: [read_float(data, base + 40), read_float(data, base + 48)],
            vesting_apt: read_float(data, base + 56),
            available_apt: read_float(data, base + 64),
            available_mnde: read_float(data, base + 72),
            available_wldo: read_float(data, base + 80),
            available_b180socn: read_float(data, base + 88),
            available_wluna: read_float(data, base + 96),
        };
        assert(info@.vesting =~= Self::spec_read(data@, base as int).vesting);
        assert(info@.unused =~= Self::spec_read(data@, base as int).unused);
        info
    }
}

/// A user's account: the page on which the user is entered, the positions,
/// the rewards and the times of the last updates.
#[derive(Clone, Copy, Debug, PartialEq, Eq)]
pub struct UserInfo {
    /// Page on which the user is entered; `INVALID_PAGE_ID` while the account
    /// is not in use.
    pub page_id: u16,
    /// Number of positions in use, at most `MAX_ASSETS_PER_USER` in an account
    /// that the program wrote.
    pub num_assets: u8,
    /// The positions; the first `num_assets` are in use.
    pub user_asset_info: [UserAssetInfo; 16],
    /// The rewards.
    pub reward: RewardInfo,
    /// Not in use.
    pub pad: [u8; 8],
    /// Time up to which rewards have been moved to vesting, in seconds.
    pub last_vest_cutoff_timestamp: u64,
    /// Time of the last update, in seconds.
    pub last_update_timestamp: u64,
}

/// A user's account, with the arrays as sequences.
pub struct UserInfoView {
    pub page_id: u16,
    pub num_assets: u8,
    pub user_asset_info: Seq<UserAssetInfo>,
    pub reward: RewardInfoView,
    pub pad: Seq<u8>,
    pub last_vest_cutoff_timestamp: u64,
    pub last_update_timestamp: u64,
}

impl View for UserInfo {
    type V = UserInfoView;

    open spec fn view(&self) -> UserInfoView {
        UserInfoView {
            page_id: self.page_id,
            num_assets: self.num_assets,
            user_asset_info: self.user_asset_info@,
            reward: self.reward@,
            pad: self.pad@,
            last_vest_cutoff_timestamp: self.last_vest_cutoff_timestamp,
            last_update_timestamp: self.last_update_timestamp,
        }
    }
}

/// The positions on the wire, one after the other.
pub open spec fn positions_bytes(positions: Seq<UserAssetInfo>) -> Seq<u8>
    decreases positions.len(),
{
    if positions.len() == 0 {
        Seq::empty()
    } else {
        positions_bytes(positions.drop_last()) + positions.last().spec_to_bytes()
    }
}

/// Each position takes its 98 bytes among the positions on the wire.
pub proof fn lemma_positions_bytes(positions: Seq<UserAssetInfo>)
    ensures
        positions_bytes(positions).len() == 98 * positions.len(),
        forall|k: int|
            0 <= k < positions.len() ==> positions_bytes(positions).subrange(98 * k, 98 * k + 98)
                == (#[trigger] positions[k]).spec_to_bytes(),
    decreases positions.len(),
{
    if positions.len() > 0 {
        let front = positions.drop_last();
        let last = positions.last();
        let whole = positions_bytes(positions);
        lemma_positions_bytes(front);
        UserAssetInfo::lemma_roundtrip(last);
        lemma_append_keeps(positions_bytes(front), last.spec_to_bytes(), whole);
        assert forall|k: int| 0 <= k < positions.len() implies whole.subrange(98 * k, 98 * k + 98)
            == (#[trigger] positions[k]).spec_to_bytes() by {
            if k < front.len() {
                assert(front[k] == positions[k]);
                assert(whole.subrange(98 * k, 98 * k + 98) == positions_bytes(front).subrange(
                    98 * k,
                    98 * k + 98,
                ));
            } else {
                assert(whole.subrange(98 * k, 98 * k + 98) =~= last.spec_to_bytes());
            }
        }
    }
}

/// The positions that are read one after the other are written as the bytes
/// from which they were read.
pub proof fn lemma_positions_unpadded(data: Seq<u8>, base: int, count: nat)
    requires
        0 <= base,
        base + 98 * count <= data.len(),
    ensures
        positions_bytes(Seq::new(count, |i: int| UserAssetInfo::spec_read(data, base + 98 * i)))
            == data.subrange(base, base + 98 * count),
    decreases count,
{
    let positions = Seq::new(count, |i: int| UserAssetInfo::spec_read(data, base + 98 * i));
    if count == 0 {
        assert(data.subrange(base, base + 98 * count) =~= Seq::<u8>::empty());
    } else {
        let fewer = (count - 1) as nat;
        let front = Seq::new(fewer, |i: int| UserAssetInfo::spec_read(data, base + 98 * i));
        assert(positions.drop_last() =~= front);
        lemma_positions_unpadded(data, base, fewer);
        UserAssetInfo::lemma_unpadded(data, base + 98 * fewer);
        lemma_subrange_join(data, base, base + 98 * fewer, base + 98 * count);
    }
}

impl UserInfoView {
    /// Whether the arrays have their sixteen positions and eight bytes.
    pub open spec fn well_formed(self) -> bool {
        self.user_asset_info.len() == 16 && self.pad.len() == 8 && self.reward.well_formed()
    }

    /// The account on the wire: its fields in their order, each least
    /// significant byte first.
    pub open spec fn spec_to_bytes(self) -> Seq<u8> {
        le_bytes(self.page_id as nat, 2)
            + le_bytes(self.num_assets as nat, 1)
            + positions_bytes(self.user_asset_info)
            + self.reward.spec_to_bytes()
            + self.pad
            + le_bytes(self.last_vest_cutoff_timestamp as nat, 8)
            + le_bytes(self.last_update_timestamp as nat, 8)
    }
}

/// The first of the positions that is in pool `pool_id`, if there is one.
pub open spec fn first_position(positions: Seq<UserAssetInfo>, pool_id: u8) -> Option<
    UserAssetInfo,
>
    decreases positions.len(),
{
    if positions.len() == 0 {
        None
    } else if positions[0].pool_id == pool_id {
        Some(positions[0])
    } else {
        first_position(positions.skip(1), pool_id)
    }
}

impl UserInfo {
    /// The account that the first 1699 bytes of `data` hold.
    pub open spec fn spec_from_bytes(data: Seq<u8>) -> UserInfoView {
        UserInfoView {
            page_id: field(data, 0, 2) as u16,
            num_assets: field(data, 2, 1) as u8,
            user_asset_info: Seq::new(16, |i: int| UserAssetInfo::spec_read(data, 3 + 98 * i)),
            reward: RewardInfo::spec_read(data, 1571),
            pad: data.subrange(1675, 1683),
            last_vest_cutoff_timestamp: field(data, 1683, 8) as u64,
            last_update_timestamp: field(data, 1691, 8) as u64,
        }
    }

    /// Whether the account is one that the program can have written: no more
    /// positions are in use than there is room for.
    pub open spec fn well_formed(&self) -> bool {
        self.num_assets <= MAX_ASSETS_PER_USER
    }

    /// Whether the account is one that the program can have written.
    pub fn is_well_formed(&self) -> (ok: bool)
        ensures
            ok == self.well_formed(),
    {
        self.num_assets as usize <= MAX_ASSETS_PER_USER
    }

    /// Reads an account from the first bytes of `data`, without judging what
    /// the fields hold; fails on a buffer that is too short to hold an account.
    pub fn from_bytes(data: &[u8]) -> (decoded: Result<UserInfo, ApricotError>)
        ensures
            data@.len() >= USER_INFO_SIZE ==> (decoded matches Ok(info) && info@
                == Self::spec_from_bytes(data@)),
            data@.len() < USER_INFO_SIZE ==> (decoded matches Err(e) && e
                == ApricotError::BufferTooSmall),
    {
        if data.len() < USER_INFO_SIZE {
            return Err(ApricotError::BufferTooSmall);
        }
        let mut positions: [UserAssetInfo; 16] = [UserAssetInfo::read(data, 3);16];
        let mut i: usize = 1;
        while i < 16
            invariant
                1 <= i <= 16,
                data@.len() >= USER_INFO_SIZE,
                forall|j: int|
                    0 <= j < i ==> positions@[j] == UserAssetInfo::spec_read(data@, 3 + 98 * j),
            decreases 16 - i,
        {
            positions[i] = UserAssetInfo::read(data, 3 + 98 * i);
            i = i + 1;
        }
        let mut pad: [u8; 8] = [0u8;8];
        let mut k: usize = 0;
        while k < 8
            invariant
                k <= 8,
                data@.len() >= USER_INFO_SIZE,
                forall|j: int| 0 <= j < k ==> pad@[j] == data@[1675 + j],
            decreases 8 - k,
        {
            pad[k] = data[1675 + k];
            k = k + 1;
        }
        let info = UserInfo {
            page_id: read_u16(data, 0),
            num_assets: read_u8(data, 2),
            user_asset_info: positions,
            reward: RewardInfo::read(data, 1571),
            pad,
            last_vest_cutoff_timestamp: read_u64(data, 1683),
            last_update_timestamp: read_u64(data, 1691),
        };
        assert(info@.user_asset_info =~= Self::spec_from_bytes(data@).user_asset_info);
        assert(info@.pad =~= Self::spec_from_bytes(data@).pad);
        Ok(info)
    }

    /// Appends the account to `out`.
    pub fn write(&self, out: &mut Vec<u8>)
        ensures
            final(out)@ == old(out)@ + self@.spec_to_bytes(),
    {
        let ghost before = out@;
        write_le(out, self.page_id as u128, 2);
        write_le(out, self.num_assets as u128, 1);
        let ghost head = out@;
        let mut i: usize = 0;
        assert(self@.user_asset_info.subrange(0, 0) =~= Seq::<UserAssetInfo>::empty());
        assert(out@ =~= head + positions_bytes(self@.user_asset_info.subrange(0, 0)));
        while i < 16
            invariant
                i <= 16,
                self@.user_asset_info.len() == 16,
                out@ == head + positions_bytes(self@.user_asset_info.subrange(0, i as int)),
            decreases 16 - i,
        {
            let ghost written = positions_bytes(self@.user_asset_info.subrange(0, i as int));
            self.user_asset_info[i].write(out);
            proof {
                let next = self@.user_asset_info.subrange(0, i + 1);
                assert(next.drop_last() =~= self@.user_asset_info.subrange(0, i as int));
                assert(next.last() == self.user_asset_info@[i as int]);
                lemma_append_twice(head, written, self.user_asset_info@[i as int].spec_to_bytes());
            }
            i = i + 1;
        }
        assert(self@.user_asset_info.subrange(0, 16) =~= self@.user_asset_info);
        self.reward.write(out);
        write_bytes(out, &self.pad);
        write_le(out, self.last_vest_cutoff_timestamp as u128, 8);
        write_le(out, self.last_update_timestamp as u128, 8);
        assert(out@ =~= before + self@.spec_to_bytes());
    }

    /// The account on the wire.
    pub fn to_bytes(&self) -> (out: Vec<u8>)
        ensures
            out@ == self@.spec_to_bytes(),
            out@.len() == USER_INFO_SIZE,
    {
        let mut out: Vec<u8> = Vec::new();
        self.write(&mut out);
        proof {
            Self::lemma_roundtrip(self@);
            assert(out@ =~= self@.spec_to_bytes());
        }
        out
    }

    /// An account that is written and read back is the same account.
    pub proof fn lemma_roundtrip(info: UserInfoView)
        requires
            info.well_formed(),
        ensures
            info.spec_to_bytes().len() == USER_INFO_SIZE,
            Self::spec_from_bytes(info.spec_to_bytes()) == info,
    {
        lemma_pow256_values();
        let positions = positions_bytes(info.user_asset_info);
        let reward = info.reward.spec_to_bytes();
        lemma_positions_bytes(info.user_asset_info);
        RewardInfo::lemma_roundtrip(info.reward);
        let b0 = Seq::<u8>::empty();
        let b1 = b0 + le_bytes(info.page_id as nat, 2);
        lemma_append_field(b0, info.page_id as nat, 2, b1);
        let b2 = b1 + le_bytes(info.num_assets as nat, 1);
        lemma_append_field(b1, info.num_assets as nat, 1, b2);
        let b3 = b2 + positions;
        lemma_append_keeps(b2, positions, b3);
        let b4 = b3 + reward;
        lemma_append_keeps(b3, reward, b4);
        let b5 = b4 + info.pad;
        lemma_append_keeps(b4, info.pad, b5);
        let b6 = b5 + le_bytes(info.last_vest_cutoff_timestamp as nat, 8);
        lemma_append_field(b5, info.last_vest_cutoff_timestamp as nat, 8, b6);
        let b7 = b6 + le_bytes(info.last_update_timestamp as nat, 8);
        lemma_append_field(b6, info.last_update_timestamp as nat, 8, b7);
        assert(info.spec_to_bytes() =~= b7);
        let read = Self::spec_from_bytes(b7);
        assert forall|k: int| 0 <= k < 16 implies UserAssetInfo::spec_read(b7, 3 + 98 * k)
            == info.user_asset_info[k] by {
            let position = info.user_asset_info[k];
            UserAssetInfo::lemma_read_within(b7, 3 + 98 * k);
            assert(b7.subrange(3 + 98 * k, 3 + 98 * k + 98) == b3.subrange(
                3 + 98 * k,
                3 + 98 * k + 98,
            ));
            assert(b3.subrange(3 + 98 * k, 3 + 98 * k + 98) =~= b3.subrange(3, 1571).subrange(
                98 * k,
                98 * k + 98,
            ));
            assert(positions.subrange(98 * k, 98 * k + 98) == position.spec_to_bytes());
            UserAssetInfo::lemma_roundtrip(position);
        }
        assert(read.user_asset_info =~= info.user_asset_info);
        assert(read.reward == info.reward) by {
            RewardInfo::lemma_read_within(b7, 1571);
            assert(b7.subrange(1571, 1675) == b4.subrange(1571, 1675));
        }
        assert(read.pad == info.pad) by {
            assert(b7.subrange(1675, 1683) == b5.subrange(1675, 1683));
        }
    }

    /// Every byte of an account belongs to a field: reading an account and
    /// writing what was read gives its 1699 bytes again.
    pub proof fn lemma_unpadded(data: Seq<u8>)
        requires
            data.len() >= USER_INFO_SIZE,
        ensures
            Self::spec_from_bytes(data).well_formed(),
            Self::spec_from_bytes(data).spec_to_bytes() == data.subrange(
                0,
                USER_INFO_SIZE as int,
            ),
    {
        lemma_pow256_values();
        let info = Self::spec_from_bytes(data);
        lemma_field_bytes(data, 0, 2);
        lemma_field_bytes(data, 2, 1);
        lemma_subrange_join(data, 0, 2, 3);
        lemma_positions_unpadded(data, 3, 16);
        assert(info.user_asset_info =~= Seq::new(
            16,
            |i: int| UserAssetInfo::spec_read(data, 3 + 98 * i),
        ));
        lemma_subrange_join(data, 0, 3, 1571);
        RewardInfo::lemma_unpadded(data, 1571);
        lemma_subrange_join(data, 0, 1571, 1675);
        lemma_subrange_join(data, 0, 1675, 1683);
        lemma_field_bytes(data, 1683, 8);
        lemma_subrange_join(data, 0, 1683, 1691);
        lemma_field_bytes(data, 1691, 8);
        lemma_subrange_join(data, 0, 1691, 1699);
    }

    /// What the user has deposited in pool `pool_id`, in whole native units:
    /// the deposit of the first position in that pool, and 0 if there is none.
    pub fn deposit_native_amount(&self, pool_id: u8) -> (native: u64)
        ensures
            native == match first_position(self@.user_asset_info, pool_id) {
                Some(position) => position.deposit_amount.spec_to_native_amount(),
                None => 0,
            },
    {
        let mut i: usize = 0;
        assert(self.user_asset_info@.skip(0) =~= self.user_asset_info@);
        while i < 16
            invariant
                i <= 16,
                self.user_asset_info@.len() == 16,
                first_position(self.user_asset_info@, pool_id) == first_position(
                    self.user_asset_info@.skip(i as int),
                    pool_id,
                ),
            decreases 16 - i,
        {
            let position = self.user_asset_info[i];
            if position.pool_id == pool_id {
                return position.deposit_amount.to_native_amount();
            }
            assert(self.user_asset_info@.skip(i as int).skip(1) =~= self.user_asset_info@.skip(
                i + 1,
            ));
            i = i + 1;
        }
        0
    }
}

/// The state of one pool.
#[derive(Clone, Copy, Debug, PartialEq, Eq)]
pub struct AssetPool {
    /// Name of the token, padded with zero bytes.
    pub token_name: [u8; 32],
    /// Mint of the token.
    pub mint_key: Pubkey,
    /// Ten to the power of nine less the token's decimals.
    pub mint_decimal_multiplier: u64,
    /// Number of the pool.
    pub pool_id: u8,
    /// Total of the deposits.
    pub deposit_amount: RawAmt,
    /// Compounding index of the deposits.
    pub deposit_index: Float64,
    /// Total of the debts.
    pub borrow_amount: RawAmt,
    /// Compounding index of the debts.
    pub borrow_index: Float64,
    /// Share of the interest that the program keeps.
    pub reserve_factor: Float64,
    /// Fees collected.
    pub fee_amount: RawAmt,
    /// Fees withdrawn, in native units.
    pub fee_withdrawn_amount: u64,
    /// Current rate at which fees accrue.
    pub current_fee_rate: Float64,
    /// Time of the last update, in seconds.
    pub last_update_time: u64,
    /// Token account of the pool.
    pub spl_key: Pubkey,
    /// Mint of the pool's deposit receipts.
    pub atoken_mint_key: Pubkey,
    /// Account that holds the asset's price.
    pub asset_price_key: Pubkey,
    /// Price feed of the asset.
    pub pyth_price_key: Pubkey,
    /// Next client order number for orders placed on the exchange.
    pub serum_next_cl_id: u64,
    /// Loan-to-value ratio.
    pub ltv: Float64,
    /// Safety factor applied to debts in this asset.
    pub safe_factor: Float64,
    /// Flags of the pool.
    pub flags: u8,
    /// Interest curve: borrow rate at zero utilization.
    pub base_rate: Float64,
    /// Interest curve: slope up to the kink.
    pub multiplier: Float64,
    /// Interest curve: slope above the kink.
    pub jump_multiplier: Float64,
    /// Interest curve: utilization at which the slope changes.
    pub kink: Float64,
    /// Current borrow rate per year.
    pub current_borrow_rate: Float64,
    /// Current deposit rate per year.
    pub current_deposit_rate: Float64,
    /// Weight of the pool in the distribution of rewards.
    pub reward_multiplier: Float64,
    /// Share of the pool's reward that goes to depositors, below one.
    pub reward_deposit_intra_share: Float64,
    /// Reward allotted to the pool per year.
    pub reward_apr_per_year: u64,
    /// Reward allotted to the depositors per year.
    pub deposit_apt_reward_amount_per_year: u64,
    /// Reward allotted to the borrowers per year.
    pub borrow_apt_reward_amount_per_year: u64,
    /// Reward per year for each unit deposited.
    pub apt_reward_per_year_per_deposit: Float64,
    /// Reward per year for each unit borrowed.
    pub apt_reward_per_year_per_borrow: Float64,
    /// Reward index of the deposits.
    pub reward_deposit_index: Float64,
    /// Reward index of the debts.
    pub reward_borrow_index: Float64,
    /// Most that the pool accepts in deposits, in native units.
    pub deposit_cap: u64,
    /// Whether the pool is closed: 1 if so, else 0.
    pub is_disabled: u8,
    /// Yield of the farm in which the pool's tokens are staked.
    pub farm_yield: Float64,
}

/// The state of one pool, with names and addresses as sequences of bytes.
pub struct AssetPoolView {
    pub token_name: Seq<u8>,
    pub mint_key: Seq<u8>,
    pub mint_decimal_multiplier: u64,
    pub pool_id: u8,
    pub deposit_amount: RawAmt,
    pub deposit_index: Float64,
    pub borrow_amount: RawAmt,
    pub borrow_index: Float64,
    pub reserve_factor: Float64,
    pub fee_amount: RawAmt,
    pub fee_withdrawn_amount: u64,
    pub current_fee_rate: Float64,
    pub last_update_time: u64,
    pub spl_key: Seq<u8>,
    pub atoken_mint_key: Seq<u8>,
    pub asset_price_key: Seq<u8>,
    pub pyth_price_key: Seq<u8>,
    pub serum_next_cl_id: u64,
    pub ltv: Float64,
    pub safe_factor: Float64,
    pub flags: u8,
    pub base_rate: Float64,
    pub multiplier: Float64,
    pub jump_multiplier: Float64,
    pub kink: Float64,
    pub current_borrow_rate: Float64,
    pub current_deposit_rate: Float64,
    pub reward_multiplier: Float64,
    pub reward_deposit_intra_share: Float64,
    pub reward_apr_per_year: u64,
    pub deposit_apt_reward_amount_per_year: u64,
    pub borrow_apt_reward_amount_per_year: u64,
    pub apt_reward_per_year_per_deposit: Float64,
    pub apt_reward_per_year_per_borrow: Float64,
    pub reward_deposit_index: Float64,
    pub reward_borrow_index: Float64,
    pub deposit_cap: u64,
    pub is_disabled: u8,
    pub farm_yield: Float64,
}

impl View for AssetPool {
    type V = AssetPoolView;

    open spec fn view(&self) -> AssetPoolView {
        AssetPoolView {
            token_name: self.token_name@,
            mint_key: self.mint_key@,
            mint_decimal_multiplier: self.mint_decimal_multiplier,
            pool_id: self.pool_id,
            deposit_amount: self.deposit_amount,
            deposit_index: self.deposit_index,
            borrow_amount: self.borrow_amount,
            borrow_index: self.borrow_index,
            reserve_factor: self.reserve_factor,
            fee_amount: self.fee_amount,
            fee_withdrawn_amount: self.fee_withdrawn_amount,
            current_fee_rate: self.current_fee_rate,
            last_update_time: self.last_update_time,
            spl_key: self.spl_key@,
            atoken_mint_key: self.atoken_mint_key@,
            asset_price_key: self.asset_price_key@,
            pyth_price_key: self.pyth_price_key@,
            serum_next_cl_id: self.serum_next_cl_id,
            ltv: self.ltv,
            safe_factor: self.safe_factor,
            flags: self.flags,
            base_rate: self.base_rate,
            multiplier: self.multiplier,
            jump_multiplier: self.jump_multiplier,
            kink: self.kink,
            current_borrow_rate: self.current_borrow_rate,
            current_deposit_rate: self.current_deposit_rate,
            reward_multiplier: self.reward_multiplier,
            reward_deposit_intra_share: self.reward_deposit_intra_share,
            reward_apr_per_year: self.reward_apr_per_year,
            deposit_apt_reward_amount_per_year: self.deposit_apt_reward_amount_per_year,
            borrow_apt_reward_amount_per_year: self.borrow_apt_reward_amount_per_year,
            apt_reward_per_year_per_deposit: self.apt_reward_per_year_per_deposit,
            apt_reward_per_year_per_borrow: self.apt_reward_per_year_per_borrow,
            reward_deposit_index: self.reward_deposit_index,
            reward_borrow_index: self.reward_borrow_index,
            deposit_cap: self.deposit_cap,
            is_disabled: self.is_disabled,
            farm_yield: self.farm_yield,
        }
    }
}

impl AssetPoolView {
    /// Whether the name and the addresses have their 32 bytes each.
    pub open spec fn well_formed(self) -> bool {
        self.token_name.len() == 32
            && self.mint_key.len() == 32
            && self.spl_key.len() == 32
            && self.atoken_mint_key.len() == 32
            && self.asset_price_key.len() == 32
            && self.pyth_price_key.len() == 32
    }

    /// The pool on the wire: its fields in their order, each least significant byte
    /// first.
    pub open spec fn spec_to_bytes(self) -> Seq<u8> {
        self.token_name
            + self.mint_key
            + le_bytes(self.mint_decimal_multiplier as nat, 8)
            + le_bytes(self.pool_id as nat, 1)
            + le_bytes(self.deposit_amount.amt as nat, 16)
            + le_bytes(self.deposit_index.bits as nat, 8)
            + le_bytes(self.borrow_amount.amt as nat, 16)
            + le_bytes(self.borrow_index.bits as nat, 8)
            + le_bytes(self.reserve_factor.bits as nat, 8)
            + le_bytes(self.fee_amount.amt as nat, 16)
            + le_bytes(self.fee_withdrawn_amount as nat, 8)
            + le_bytes(self.current_fee_rate.bits as nat, 8)
            + le_bytes(self.last_update_time as nat, 8)
            + self.spl_key
            + self.atoken_mint_key
            + self.asset_price_key
            + self.pyth_price_key
            + le_bytes(self.serum_next_cl_id as nat, 8)
            + le_bytes(self.ltv.bits as nat, 8)
            + le_bytes(self.safe_factor.bits as nat, 8)
            + le_bytes(self.flags as nat, 1)
            + le_bytes(self.base_rate.bits as nat, 8)
            + le_bytes(self.multiplier.bits as nat, 8)
            + le_bytes(self.jump_multiplier.bits as nat, 8)
            + le_bytes(self.kink.bits as nat, 8)
            + le_bytes(self.current_borrow_rate.bits as nat, 8)
            + le_bytes(self.current_deposit_rate.bits as nat, 8)
            + le_bytes(self.reward_multiplier.bits as nat, 8)
            + le_bytes(self.reward_deposit_intra_share.bits as nat, 8)
            + le_bytes(self.reward_apr_per_year as nat, 8)
            + le_bytes(self.deposit_apt_reward_amount_per_year as nat, 8)
            + le_bytes(self.borrow_apt_reward_amount_per_year as nat, 8)
            + le_bytes(self.apt_reward_per_year_per_deposit.bits as nat, 8)
            + le_bytes(self.apt_reward_per_year_per_borrow.bits as nat, 8)
            + le_bytes(self.reward_deposit_index.bits as nat, 8)
            + le_bytes(self.reward_borrow_index.bits as nat, 8)
            + le_bytes(self.deposit_cap as nat, 8)
            + le_bytes(self.is_disabled as nat, 1)
            + le_bytes(self.farm_yield.bits as nat, 8)
    }
}

impl AssetPool {
    /// The pool that the first 459 bytes of `data` hold.
    pub open spec fn spec_from_bytes(data: Seq<u8>) -> AssetPoolView {
        AssetPoolView {
            token_name: data.subrange(0, 32),
            mint_key: data.subrange(32, 64),
            mint_decimal_multiplier: field(data, 64, 8) as u64,
            pool_id: field(data, 72, 1) as u8,
            deposit_amount: RawAmt { amt: field(data, 73, 16) as u128 },
            deposit_index: Float64 { bits: field(data, 89, 8) as u64 },
            borrow_amount: RawAmt { amt: field(data, 97, 16) as u128 },
            borrow_index: Float64 { bits: field(data, 113, 8) as u64 },
            reserve_factor: Float64 { bits: field(data, 121, 8) as u64 },
            fee_amount: RawAmt { amt: field(data, 129, 16) as u128 },
            fee_withdrawn_amount: field(data, 145, 8) as u64,
            current_fee_rate: Float64 { bits: field(data, 153, 8) as u64 },
            last_update_time: field(data, 161, 8) as u64,
            spl_key: data.subrange(169, 201),
            atoken_mint_key: data.subrange(201, 233),
            asset_price_key: data.subrange(233, 265),
            pyth_price_key: data.subrange(265, 297),
            serum_next_cl_id: field(data, 297, 8) as u64,
            ltv: Float64 { bits: field(data, 305, 8) as u64 },
            safe_factor: Float64 { bits: field(data, 313, 8) as u64 },
            flags: field(data, 321, 1) as u8,
            base_rate: Float64 { bits: field(data, 322, 8) as u64 },
            multiplier: Float64 { bits: field(data, 330, 8) as u64 },
            jump_multiplier: Float64 { bits: field(data, 338, 8) as u64 },
            kink: Float64 { bits: field(data, 346, 8) as u64 },
            current_borrow_rate: Float64 { bits: field(data, 354, 8) as u64 },
            current_deposit_rate: Float64 { bits: field(data, 362, 8) as u64 },
            reward_multiplier: Float64 { bits: field(data, 370, 8) as u64 },
            reward_deposit_intra_share: Float64 { bits: field(data, 378, 8) as u64 },
            reward_apr_per_year: field(data, 386, 8) as u64,
            deposit_apt_reward_amount_per_year: field(data, 394, 8) as u64,
            borrow_apt_reward_amount_per_year: field(data, 402, 8) as u64,
            apt_reward_per_year_per_deposit: Float64 { bits: field(data, 410, 8) as u64 },
            apt_reward_per_year_per_borrow: Float64 { bits: field(data, 418, 8) as u64 },
            reward_deposit_index: Float64 { bits: field(data, 426, 8) as u64 },
            reward_borrow_index: Float64 { bits: field(data, 434, 8) as u64 },
            deposit_cap: field(data, 442, 8) as u64,
            is_disabled: field(data, 450, 1) as u8,
            farm_yield: Float64 { bits: field(data, 451, 8) as u64 },
        }
    }

    /// Reads a pool from the first bytes of `data`, without judging what the
    /// fields hold; fails on a buffer that is too short to hold a pool.
    pub fn from_bytes(data: &[u8]) -> (decoded: Result<AssetPool, ApricotError>)
        ensures
            data@.len() >= ASSET_POOL_SIZE ==> (decoded matches Ok(pool) && pool@
                == Self::spec_from_bytes(data@)),
            data@.len() < ASSET_POOL_SIZE ==> (decoded matches Err(e) && e
                == ApricotError::BufferTooSmall),
    {
        if data.len() < ASSET_POOL_SIZE {
            return Err(ApricotError::BufferTooSmall);
        }
        Ok(AssetPool {
            token_name: read_bytes32(data, 0),
            mint_key: Pubkey::new_from_array(read_bytes32(data, 32)),
            mint_decimal_multiplier: read_u64(data, 64),
            pool_id: read_u8(data, 72),
            deposit_amount: RawAmt { amt: read_u128(data, 73) },
            deposit_index: Float64 { bits: read_u64(data, 89) },
            borrow_amount: RawAmt { amt: read_u128(data, 97) },
            borrow_index: Float64 { bits: read_u64(data, 113) },
            reserve_factor: Float64 { bits: read_u64(data, 121) },
            fee_amount: RawAmt { amt: read_u128(data, 129) },
            fee_withdrawn_amount: read_u64(data, 145),
            current_fee_rate: Float64 { bits: read_u64(data, 153) },
            last_update_time: read_u64(data, 161),
            spl_key: Pubkey::new_from_array(read_bytes32(data, 169)),
            atoken_mint_key: Pubkey::new_from_array(read_bytes32(data, 201)),
            asset_price_key: Pubkey::new_from_array(read_bytes32(data, 233)),
            pyth_price_key: Pubkey::new_from_array(read_bytes32(data, 265)),
            serum_next_cl_id: read_u64(data, 297),
            ltv: Float64 { bits: read_u64(data, 305) },
            safe_factor: Float64 { bits: read_u64(data, 313) },
            flags: read_u8(data, 321),
            base_rate: Float64 { bits: read_u64(data, 322) },
            multiplier: Float64 { bits: read_u64(data, 330) },
            jump_multiplier: Float64 { bits: read_u64(data, 338) },
            kink: Float64 { bits: read_u64(data, 346) },
            current_borrow_rate: Float64 { bits: read_u64(data, 354) },
            current_deposit_rate: Float64 { bits: read_u64(data, 362) },
            reward_multiplier: Float64 { bits: read_u64(data, 370) },
            reward_deposit_intra_share: Float64 { bits: read_u64(data, 378) },
            reward_apr_per_year: read_u64(data, 386),
            deposit_apt_reward_amount_per_year: read_u64(data, 394),
            borrow_apt_reward_amount_per_year: read_u64(data, 402),
            apt_reward_per_year_per_deposit: Float64 { bits: read_u64(data, 410) },
            apt_reward_per_year_per_borrow: Float64 { bits: read_u64(data, 418) },
            reward_deposit_index: Float64 { bits: read_u64(data, 426) },
            reward_borrow_index: Float64 { bits: read_u64(data, 434) },
            deposit_cap: read_u64(data, 442),
            is_disabled: read_u8(data, 450),
            farm_yield: Float64 { bits: read_u64(data, 451) },
        })
    }

    /// Appends the pool to `out`.
    pub fn write(&self, out: &mut Vec<u8>)
        ensures
            final(out)@ == old(out)@ + self@.spec_to_bytes(),
    {
        let ghost before = out@;
        write_bytes(out, &self.token_name);
        let ghost mut written = self@.token_name;
        write_bytes(out, &self.mint_key.bytes);
        proof {
            let piece = self@.mint_key;
            lemma_append_twice(before, written, piece);
            written = written + piece;
        }
        write_le(out, self.mint_decimal_multiplier as u128, 8);
        proof {
            let piece = le_bytes(self@.mint_decimal_multiplier as nat, 8);
            lemma_append_twice(before, written, piece);
            written = written + piece;
        }
        write_le(out, self.pool_id as u128, 1);
        proof {
            let piece = le_bytes(self@.pool_id as nat, 1);
            lemma_append_twice(before, written, piece);
            written = written + piece;
        }
        write_le(out, self.deposit_amount.amt, 16);
        proof {
            let piece = le_bytes(self@.deposit_amount.amt as nat, 16);
            lemma_append_twice(before, written, piece);
            written = written + piece;
        }
        write_le(out, self.deposit_index.bits as u128, 8);
        proof {
            let piece = le_bytes(self@.deposit_index.bits as nat, 8);
            lemma_append_twice(before, written, piece);
            written = written + piece;
        }
        write_le(out, self.borrow_amount.amt, 16);
        proof {
            let piece = le_bytes(self@.borrow_amount.amt as nat, 16);
            lemma_append_twice(before, written, piece);
            written = written + piece;
        }
        write_le(out, self.borrow_index.bits as u128, 8);
        proof {
            let piece = le_bytes(self@.borrow_index.bits as nat, 8);
            lemma_append_twice(before, written, piece);
            written = written + piece;
        }
        write_le(out, self.reserve_factor.bits as u128, 8);
        proof {
            let piece = le_bytes(self@.reserve_factor.bits as nat, 8);
            lemma_append_twice(before, written, piece);
            written = written + piece;
        }
        write_le(out, self.fee_amount.amt, 16);
        proof {
            let piece = le_bytes(self@.fee_amount.amt as nat, 16);
            lemma_append_twice(before, written, piece);
            written = written + piece;
        }
        write_le(out, self.fee_withdrawn_amount as u128, 8);
        proof {
            let piece = le_bytes(self@.fee_withdrawn_amount as nat, 8);
            lemma_append_twice(before, written, piece);
            written = written + piece;
        }
        write_le(out, self.current_fee_rate.bits as u128, 8);
        proof {
            let piece = le_bytes(self@.current_fee_rate.bits as nat, 8);
            lemma_append_twice(before, written, piece);
            written = written + piece;
        }
        write_le(out, self.last_update_time as u128, 8);
        proof {
            let piece = le_bytes(self@.last_update_time as nat, 8);
            lemma_append_twice(before, written, piece);
            written = written + piece;
        }
        write_bytes(out, &self.spl_key.bytes);
        proof {
            let piece = self@.spl_key;
            lemma_append_twice(before, written, piece);
            written = written + piece;
        }
        write_bytes(out, &self.atoken_mint_key.bytes);
        proof {
            let piece = self@.atoken_mint_key;
            lemma_append_twice(before, written, piece);
            written = written + piece;
        }
        write_bytes(out, &self.asset_price_key.bytes);
        proof {
            let piece = self@.asset_price_key;
            lemma_append_twice(before, written, piece);
            written = written + piece;
        }
        write_bytes(out, &self.pyth_price_key.bytes);
        proof {
            let piece = self@.pyth_price_key;
            lemma_append_twice(before, written, piece);
            written = written + piece;
        }
        write_le(out, self.serum_next_cl_id as u128, 8);
        proof {
            let piece = le_bytes(self@.serum_next_cl_id as nat, 8);
            lemma_append_twice(before, written, piece);
            written = written + piece;
        }
        write_le(out, self.ltv.bits as u128, 8);
        proof {
            let piece = le_bytes(self@.ltv.bits as nat, 8);
            lemma_append_twice(before, written, piece);
            written = written + piece;
        }
        write_le(out, self.safe_factor.bits as u128, 8);
        proof {
            let piece = le_bytes(self@.safe_factor.bits as nat, 8);
            lemma_append_twice(before, written, piece);
            written = written + piece;
        }
        write_le(out, self.flags as u128, 1);
        proof {
            let piece = le_bytes(self@.flags as nat, 1);
            lemma_append_twice(before, written, piece);
            written = written + piece;
        }
        write_le(out, self.base_rate.bits as u128, 8);
        proof {
            let piece = le_bytes(self@.base_rate.bits as nat, 8);
            lemma_append_twice(before, written, piece);
            written = written + piece;
        }
        write_le(out, self.multiplier.bits as u128, 8);
        proof {
            let piece = le_bytes(self@.multiplier.bits as nat, 8);
            lemma_append_twice(before, written, piece);
            written = written + piece;
        }
        write_le(out, self.jump_multiplier.bits as u128, 8);
        proof {
            let piece = le_bytes(self@.jump_multiplier.bits as nat, 8);
            lemma_append_twice(before, written, piece);
            written = written + piece;
        }
        write_le(out, self.kink.bits as u128, 8);
        proof {
            let piece = le_bytes(self@.kink.bits as nat, 8);
            lemma_append_twice(before, written, piece);
            written = written + piece;
        }
        write_le(out, self.current_borrow_rate.bits as u128, 8);
        proof {
            let piece = le_bytes(self@.current_borrow_rate.bits as nat, 8);
            lemma_append_twice(before, written, piece);
            written = written + piece;
        }
        write_le(out, self.current_deposit_rate.bits as u128, 8);
        proof {
            let piece = le_bytes(self@.current_deposit_rate.bits as nat, 8);
            lemma_append_twice(before, written, piece);
            written = written + piece;
        }
        write_le(out, self.reward_multiplier.bits as u128, 8);
        proof {
            let piece = le_bytes(self@.reward_multiplier.bits as nat, 8);
            lemma_append_twice(before, written, piece);
            written = written + piece;
        }
        write_le(out, self.reward_deposit_intra_share.bits as u128, 8);
        proof {
            let piece = le_bytes(self@.reward_deposit_intra_share.bits as nat, 8);
            lemma_append_twice(before, written, piece);
            written = written + piece;
        }
        write_le(out, self.reward_apr_per_year as u128, 8);
        proof {
            let piece = le_bytes(self@.reward_apr_per_year as nat, 8);
            lemma_append_twice(before, written, piece);
            written = written + piece;
        }
        write_le(out, self.deposit_apt_reward_amount_per_year as u128, 8);
        proof {
            let piece = le_bytes(self@.deposit_apt_reward_amount_per_year as nat, 8);
            lemma_append_twice(before, written, piece);
            written = written + piece;
        }
        write_le(out, self.borrow_apt_reward_amount_per_year as u128, 8);
        proof {
            let piece = le_bytes(self@.borrow_apt_reward_amount_per_year as nat, 8);
            lemma_append_twice(before, written, piece);
            written = written + piece;
        }
        write_le(out, self.apt_reward_per_year_per_deposit.bits as u128, 8);
        proof {
            let piece = le_bytes(self@.apt_reward_per_year_per_deposit.bits as nat, 8);
            lemma_append_twice(before, written, piece);
            written = written + piece;
        }
        write_le(out, self.apt_reward_per_year_per_borrow.bits as u128, 8);
        proof {
            let piece = le_bytes(self@.apt_reward_per_year_per_borrow.bits as nat, 8);
            lemma_append_twice(before, written, piece);
            written = written + piece;
        }
        write_le(out, self.reward_deposit_index.bits as u128, 8);
        proof {
            let piece = le_bytes(self@.reward_deposit_index.bits as nat, 8);
            lemma_append_twice(before, written, piece);
            written = written + piece;
        }
        write_le(out, self.reward_borrow_index.bits as u128, 8);
        proof {
            let piece = le_bytes(self@.reward_borrow_index.bits as nat, 8);
            lemma_append_twice(before, written, piece);
            written = written + piece;
        }
        write_le(out, self.deposit_cap as u128, 8);
        proof {
            let piece = le_bytes(self@.deposit_cap as nat, 8);
            lemma_append_twice(before, written, piece);
            written = written + piece;
        }
        write_le(out, self.is_disabled as u128, 1);
        proof {
            let piece = le_bytes(self@.is_disabled as nat, 1);
            lemma_append_twice(before, written, piece);
            written = written + piece;
        }
        write_le(out, self.farm_yield.bits as u128, 8);
        proof {
            let piece = le_bytes(self@.farm_yield.bits as nat, 8);
            lemma_append_twice(before, written, piece);
            written = written + piece;
        }
    }

    /// The pool on the wire.
    pub fn to_bytes(&self) -> (out: Vec<u8>)
        ensures
            out@ == self@.spec_to_bytes(),
            out@.len() == ASSET_POOL_SIZE,
    {
        let mut out: Vec<u8> = Vec::new();
        self.write(&mut out);
        proof {
            Self::lemma_roundtrip(self@);
            assert(out@ =~= self@.spec_to_bytes());
        }
        out
    }

    /// A pool that is written and read back is the same pool.
    pub proof fn lemma_roundtrip(pool: AssetPoolView)
        requires
            pool.well_formed(),
        ensures
            pool.spec_to_bytes().len() == ASSET_POOL_SIZE,
            Self::spec_from_bytes(pool.spec_to_bytes()) == pool,
    {
        lemma_pow256_values();
        let piece0 = pool.token_name;
        let piece1 = pool.mint_key;
        let piece2 = le_bytes(pool.mint_decimal_multiplier as nat, 8);
        let piece3 = le_bytes(pool.pool_id as nat, 1);
        let piece4 = le_bytes(pool.deposit_amount.amt as nat, 16);
        let piece5 = le_bytes(pool.deposit_index.bits as nat, 8);
        let piece6 = le_bytes(pool.borrow_amount.amt as nat, 16);
        let piece7 = le_bytes(pool.borrow_index.bits as nat, 8);
        let piece8 = le_bytes(pool.reserve_factor.bits as nat, 8);
        let piece9 = le_bytes(pool.fee_amount.amt as nat, 16);
        let piece10 = le_bytes(pool.fee_withdrawn_amount as nat, 8);
        let piece11 = le_bytes(pool.current_fee_rate.bits as nat, 8);
        let piece12 = le_bytes(pool.last_update_time as nat, 8);
        let piece13 = pool.spl_key;
        let piece14 = pool.atoken_mint_key;
        let piece15 = pool.asset_price_key;
        let piece16 = pool.pyth_price_key;
        let piece17 = le_bytes(pool.serum_next_cl_id as nat, 8);
        let piece18 = le_bytes(pool.ltv.bits as nat, 8);
        let piece19 = le_bytes(pool.safe_factor.bits as nat, 8);
        let piece20 = le_bytes(pool.flags as nat, 1);
        let piece21 = le_bytes(pool.base_rate.bits as nat, 8);
        let piece22 = le_bytes(pool.multiplier.bits as nat, 8);
        let piece23 = le_bytes(pool.jump_multiplier.bits as nat, 8);
        let piece24 = le_bytes(pool.kink.bits as nat, 8);
        let piece25 = le_bytes(pool.current_borrow_rate.bits as nat, 8);
        let piece26 = le_bytes(pool.current_deposit_rate.bits as nat, 8);
        let piece27 = le_bytes(pool.reward_multiplier.bits as nat, 8);
        let piece28 = le_bytes(pool.reward_deposit_intra_share.bits as nat, 8);
        let piece29 = le_bytes(pool.reward_apr_per_year as nat, 8);
        let piece30 = le_bytes(pool.deposit_apt_reward_amount_per_year as nat, 8);
        let piece31 = le_bytes(pool.borrow_apt_reward_amount_per_year as nat, 8);
        let piece32 = le_bytes(pool.apt_reward_per_year_per_deposit.bits as nat, 8);
        let piece33 = le_bytes(pool.apt_reward_per_year_per_borrow.bits as nat, 8);
        let piece34 = le_bytes(pool.reward_deposit_index.bits as nat, 8);
        let piece35 = le_bytes(pool.reward_borrow_index.bits as nat, 8);
        let piece36 = le_bytes(pool.deposit_cap as nat, 8);
        let piece37 = le_bytes(pool.is_disabled as nat, 1);
        let piece38 = le_bytes(pool.farm_yield.bits as nat, 8);
        let b0 = Seq::<u8>::empty();
        let b1 = b0 + piece0;
        lemma_append_keeps(b0, piece0, b1);
        let b2 = b1 + piece1;
        lemma_append_keeps(b1, piece1, b2);
        let b3 = b2 + piece2;
        lemma_append_field(b2, pool.mint_decimal_multiplier as nat, 8, b3);
        let b4 = b3 + piece3;
        lemma_append_field(b3, pool.pool_id as nat, 1, b4);
        let b5 = b4 + piece4;
        lemma_append_field(b4, pool.deposit_amount.amt as nat, 16, b5);
        let b6 = b5 + piece5;
        lemma_append_field(b5, pool.deposit_index.bits as nat, 8, b6);
        let b7 = b6 + piece6;
        lemma_append_field(b6, pool.borrow_amount.amt as nat, 16, b7);
        let b8 = b7 + piece7;
        lemma_append_field(b7, pool.borrow_index.bits as nat, 8, b8);
        let b9 = b8 + piece8;
        lemma_append_field(b8, pool.reserve_factor.bits as nat, 8, b9);
        let b10 = b9 + piece9;
        lemma_append_field(b9, pool.fee_amount.amt as nat, 16, b10);
        let b11 = b10 + piece10;
        lemma_append_field(b10, pool.fee_withdrawn_amount as nat, 8, b11);
        let b12 = b11 + piece11;
        lemma_append_field(b11, pool.current_fee_rate.bits as nat, 8, b12);
        let b13 = b12 + piece12;
        lemma_append_field(b12, pool.last_update_time as nat, 8, b13);
        let b14 = b13 + piece13;
        lemma_append_keeps(b13, piece13, b14);
        let b15 = b14 + piece14;
        lemma_append_keeps(b14, piece14, b15);
        let b16 = b15 + piece15;
        lemma_append_keeps(b15, piece15, b16);
        let b17 = b16 + piece16;
        lemma_append_keeps(b16, piece16, b17);
        let b18 = b17 + piece17;
        lemma_append_field(b17, pool.serum_next_cl_id as nat, 8, b18);
        let b19 = b18 + piece18;
        lemma_append_field(b18, pool.ltv.bits as nat, 8, b19);
        let b20 = b19 + piece19;
        lemma_append_field(b19, pool.safe_factor.bits as nat, 8, b20);
        let b21 = b20 + piece20;
        lemma_append_field(b20, pool.flags as nat, 1, b21);
        let b22 = b21 + piece21;
        lemma_append_field(b21, pool.base_rate.bits as nat, 8, b22);
        let b23 = b22 + piece22;
        lemma_append_field(b22, pool.multiplier.bits as nat, 8, b23);
        let b24 = b23 + piece23;
        lemma_append_field(b23, pool.jump_multiplier.bits as nat, 8, b24);
        let b25 = b24 + piece24;
        lemma_append_field(b24, pool.kink.bits as nat, 8, b25);
        let b26 = b25 + piece25;
        lemma_append_field(b25, pool.current_borrow_rate.bits as nat, 8, b26);
        let b27 = b26 + piece26;
        lemma_append_field(b26, pool.current_deposit_rate.bits as nat, 8, b27);
        let b28 = b27 + piece27;
        lemma_append_field(b27, pool.reward_multiplier.bits as nat, 8, b28);
        let b29 = b28 + piece28;
        lemma_append_field(b28, pool.reward_deposit_intra_share.bits as nat, 8, b29);
        let b30 = b29 + piece29;
        lemma_append_field(b29, pool.reward_apr_per_year as nat, 8, b30);
        let b31 = b30 + piece30;
        lemma_append_field(b30, pool.deposit_apt_reward_amount_per_year as nat, 8, b31);
        let b32 = b31 + piece31;
        lemma_append_field(b31, pool.borrow_apt_reward_amount_per_year as nat, 8, b32);
        let b33 = b32 + piece32;
        lemma_append_field(b32, pool.apt_reward_per_year_per_deposit.bits as nat, 8, b33);
        let b34 = b33 + piece33;
        lemma_append_field(b33, pool.apt_reward_per_year_per_borrow.bits as nat, 8, b34);
        let b35 = b34 + piece34;
        lemma_append_field(b34, pool.reward_deposit_index.bits as nat, 8, b35);
        let b36 = b35 + piece35;
        lemma_append_field(b35, pool.reward_borrow_index.bits as nat, 8, b36);
        let b37 = b36 + piece36;
        lemma_append_field(b36, pool.deposit_cap as nat, 8, b37);
        let b38 = b37 + piece37;
        lemma_append_field(b37, pool.is_disabled as nat, 1, b38);
        let b39 = b38 + piece38;
        lemma_append_field(b38, pool.farm_yield.bits as nat, 8, b39);
        assert(pool.spec_to_bytes() =~= b39);
    }

    /// Every byte of a pool's state belongs to a field: reading a pool and
    /// writing what was read gives its 459 bytes again.
    pub proof fn lemma_unpadded(data: Seq<u8>)
        requires
            data.len() >= ASSET_POOL_SIZE,
        ensures
            Self::spec_from_bytes(data).well_formed(),
            Self::spec_from_bytes(data).spec_to_bytes() == data.subrange(
                0,
                ASSET_POOL_SIZE as int,
            ),
    {
        lemma_pow256_values();
        lemma_subrange_join(data, 0, 32, 64);
        lemma_field_bytes(data, 64, 8);
        lemma_subrange_join(data, 0, 64, 72);
        lemma_field_bytes(data, 72, 1);
        lemma_subrange_join(data, 0, 72, 73);
        lemma_field_bytes(data, 73, 16);
        lemma_subrange_join(data, 0, 73, 89);
        lemma_field_bytes(data, 89, 8);
        lemma_subrange_join(data, 0, 89, 97);
        lemma_field_bytes(data, 97, 16);
        lemma_subrange_join(data, 0, 97, 113);
        lemma_field_bytes(data, 113, 8);
        lemma_subrange_join(data, 0, 113, 121);
        lemma_field_bytes(data, 121, 8);
        lemma_subrange_join(data, 0, 121, 129);
        lemma_field_bytes(data, 129, 16);
        lemma_subrange_join(data, 0, 129, 145);
        lemma_field_bytes(data, 145, 8);
        lemma_subrange_join(data, 0, 145, 153);
        lemma_field_bytes(data, 153, 8);
        lemma_subrange_join(data, 0, 153, 161);
        lemma_field_bytes(data, 161, 8);
        lemma_subrange_join(data, 0, 161, 169);
        lemma_subrange_join(data, 0, 169, 201);
        lemma_subrange_join(data, 0, 201, 233);
        lemma_subrange_join(data, 0, 233, 265);
        lemma_subrange_join(data, 0, 265, 297);
        lemma_field_bytes(data, 297, 8);
        lemma_subrange_join(data, 0, 297, 305);
        lemma_field_bytes(data, 305, 8);
        lemma_subrange_join(data, 0, 305, 313);
        lemma_field_bytes(data, 313, 8);
        lemma_subrange_join(data, 0, 313, 321);
        lemma_field_bytes(data, 321, 1);
        lemma_subrange_join(data, 0, 321, 322);
        lemma_field_bytes(data, 322, 8);
        lemma_subrange_join(data, 0, 322, 330);
        lemma_field_bytes(data, 330, 8);
        lemma_subrange_join(data, 0, 330, 338);
        lemma_field_bytes(data, 338, 8);
        lemma_subrange_join(data, 0, 338, 346);
        lemma_field_bytes(data, 346, 8);
        lemma_subrange_join(data, 0, 346, 354);
        lemma_field_bytes(data, 354, 8);
        lemma_subrange_join(data, 0, 354, 362);
        lemma_field_bytes(data, 362, 8);
        lemma_subrange_join(data, 0, 362, 370);
        lemma_field_bytes(data, 370, 8);
        lemma_subrange_join(data, 0, 370, 378);
        lemma_field_bytes(data, 378, 8);
        lemma_subrange_join(data, 0, 378, 386);
        lemma_field_bytes(data, 386, 8);
        lemma_subrange_join(data, 0, 386, 394);
        lemma_field_bytes(data, 394, 8);
        lemma_subrange_join(data, 0, 394, 402);
        lemma_field_bytes(data, 402, 8);
        lemma_subrange_join(data, 0, 402, 410);
        lemma_field_bytes(data, 410, 8);
        lemma_subrange_join(data, 0, 410, 418);
        lemma_field_bytes(data, 418, 8);
        lemma_subrange_join(data, 0, 418, 426);
        lemma_field_bytes(data, 426, 8);
        lemma_subrange_join(data, 0, 426, 434);
        lemma_field_bytes(data, 434, 8);
        lemma_subrange_join(data, 0, 434, 442);
        lemma_field_bytes(data, 442, 8);
        lemma_subrange_join(data, 0, 442, 450);
        lemma_field_bytes(data, 450, 1);
        lemma_subrange_join(data, 0, 450, 451);
        lemma_field_bytes(data, 451, 8);
        lemma_subrange_join(data, 0, 451, 459);
    }

    /// The totals of the pool in whole native units after `deposit_native_amt`
    /// more were deposited and `borrow_native_amt` more were borrowed: the
    /// amounts from which the rates after such a change are worked out.
    pub fn native_amounts_after(&self, deposit_native_amt: u64, borrow_native_amt: u64) -> (totals: (
        u64,
        u64,
    ))
        requires
            deposit_native_amt + self.deposit_amount.spec_to_native_amount() <= u64::MAX,
            borrow_native_amt + self.borrow_amount.spec_to_native_amount() <= u64::MAX,
        ensures
            totals.0 == deposit_native_amt + self.deposit_amount.spec_to_native_amount(),
            totals.1 == borrow_native_amt + self.borrow_amount.spec_to_native_amount(),
    {
        (
            deposit_native_amt + self.deposit_amount.to_native_amount(),
            borrow_native_amt + self.borrow_amount.to_native_amount(),
        )
    }
}

} // verus!

//! The pages on which users are entered: whether a user's account is in use,
//! and which page has the most room for a new user.

use crate::codec::{field, read_u16};
use crate::error::ApricotError;
use itertools::Itertools;
use vstd::prelude::*;

verus! {

/// Number of pages of users.
pub const NUM_PAGES: usize = 5000;

/// The page number of an account that is not in use.
pub const INVALID_PAGE_ID: u16 = 0xffff;

/// Size in bytes of the head of a user's account.
pub const USER_INFO_HEADER_SIZE: usize = 2;

/// Size in bytes of the count of free slots.
pub const USER_PAGES_STATS_SIZE: usize = 10000;

/// The head of a user's account: the page on which the user is entered.
#[derive(Clone, Copy, Debug, PartialEq, Eq)]
pub struct UserInfoHeader {
    pub page_id: u16,
}

impl UserInfoHeader {
    /// The head that the first two bytes of `data` hold.
    pub open spec fn spec_from_bytes(data: Seq<u8>) -> UserInfoHeader {
        UserInfoHeader { page_id: field(data, 0, 2) as u16 }
    }

    /// Reads the head of a user's account; fails on a buffer that is too short
    /// to hold one.
    pub fn from_bytes(data: &[u8]) -> (decoded: Result<UserInfoHeader, ApricotError>)
        ensures
            data@.len() >= USER_INFO_HEADER_SIZE ==> (decoded matches Ok(header) && header
                == Self::spec_from_bytes(data@)),
            data@.len() < USER_INFO_HEADER_SIZE ==> (decoded matches Err(e) && e
                == ApricotError::BufferTooSmall),
    {
        if data.len() < USER_INFO_HEADER_SIZE {
            return Err(ApricotError::BufferTooSmall);
        }
        Ok(UserInfoHeader { page_id: read_u16(data, 0) })
    }
}

/// The count of free slots: for each page, how many more users it can take.
#[derive(Clone, Debug, PartialEq, Eq)]
pub struct UserPagesStats {
    pub num_free_slots: Vec<u16>,
}

/// The free slots of every page, as the first 10000 bytes of `data` hold
/// them: one 16-bit number for each of the `NUM_PAGES` pages.
pub open spec fn free_slots(data: Seq<u8>) -> Seq<u16> {
    Seq::new(NUM_PAGES as nat, |page: int| field(data, 2 * page, 2) as u16)
}

/// Whether `position` is where the largest number of `slots` stands, and the
/// last such place if the largest number stands in several.
pub open spec fn is_last_maximum(slots: Seq<u16>, position: int) -> bool {
    &&& 0 <= position < slots.len()
    &&& forall|i: int| 0 <= i < slots.len() ==> slots[i] <= slots[position]
    &&& forall|i: int| position < i < slots.len() ==> slots[i] < slots[position]
}

/// Whether `position` is what a search for the largest of `slots` finds:
/// nothing among no numbers, else the last place of the largest number.
pub open spec fn is_position_max(slots: Seq<u16>, position: Option<usize>) -> bool {
    match position {
        Some(p) => is_last_maximum(slots, p as int),
        None => slots.len() == 0,
    }
}

impl UserPagesStats {
    /// Whether there is one count for each page.
    pub open spec fn well_formed(&self) -> bool {
        self.num_free_slots@.len() == NUM_PAGES
    }

    /// Reads the count of free slots; fails on a buffer that is too short to
    /// hold one.
    pub fn from_bytes(data: &[u8]) -> (decoded: Result<UserPagesStats, ApricotError>)
        ensures
            data@.len() >= USER_PAGES_STATS_SIZE ==> (decoded matches Ok(stats)
                && stats.well_formed() && stats.num_free_slots@ == free_slots(data@)),
            data@.len() < USER_PAGES_STATS_SIZE ==> (decoded matches Err(e) && e
                == ApricotError::BufferTooSmall),
    {
        if data.len() < USER_PAGES_STATS_SIZE {
            return Err(ApricotError::BufferTooSmall);
        }
        let mut slots: Vec<u16> = Vec::new();
        let mut page: usize = 0;
        while page < NUM_PAGES
            invariant
                page <= NUM_PAGES,
                data@.len() >= USER_PAGES_STATS_SIZE,
                slots@.len() == page,
                forall|i: int| 0 <= i < page ==> slots@[i] == field(data@, 2 * i, 2) as u16,
            decreases NUM_PAGES - page,
        {
            slots.push(read_u16(data, 2 * page));
            page = page + 1;
        }
        assert(slots@ =~= free_slots(data@));
        Ok(UserPagesStats { num_free_slots: slots })
    }
}

/// The position of the largest of the numbers, by `Itertools::position_max`.
///
/// Trusted, as the documentation of that method says it: without numbers
/// there is no position; otherwise the position is that of the largest
/// number, the last such position if several numbers are the largest.
#[verifier::external_body]
fn position_max(slots: &Vec<u16>) -> (position: Option<usize>)
    ensures
        is_position_max(slots@, position),
{
    slots.iter().position_max()
}

/// Whether the user's account in `data` is in use: it is, unless its page
/// number is `INVALID_PAGE_ID`. Fails on a buffer that is too short to hold
/// the head of an account.
pub fn is_user_active(data: &[u8]) -> (active: Result<bool, ApricotError>)
    ensures
        data@.len() >= USER_INFO_HEADER_SIZE ==> (active matches Ok(in_use) && in_use == (
        UserInfoHeader::spec_from_bytes(data@).page_id != INVALID_PAGE_ID)),
        data@.len() < USER_INFO_HEADER_SIZE ==> (active matches Err(e) && e
            == ApricotError::BufferTooSmall),
{
    match UserInfoHeader::from_bytes(data) {
        Ok(header) => Ok(header.page_id != INVALID_PAGE_ID),
        Err(e) => Err(e),
    }
}

/// The page with the most free slots according to the count in `data`, and
/// the last such page if several have the most. Fails on a buffer that is too
/// short to hold the count.
pub fn get_best_page_id(data: &[u8]) -> (best: Result<u16, ApricotError>)
    ensures
        data@.len() >= USER_PAGES_STATS_SIZE ==> (best matches Ok(page) && is_last_maximum(
            free_slots(data@),
            page as int,
        )),
        data@.len() < USER_PAGES_STATS_SIZE ==> (best matches Err(e) && e
            == ApricotError::BufferTooSmall),
{
    match UserPagesStats::from_bytes(data) {
        Ok(stats) => {
            match position_max(&stats.num_free_slots) {
                Some(position) => Ok(position as u16),
                None => vstd::pervasive::unreached(),
            }
        },
        Err(e) => Err(e),
    }
}

} // verus!

use apricot_client::consts::{
    get_asset_pool_k, get_asset_pool_spl_k, get_base_pda, get_lm_apt_vault_k,
    get_pool_summaries_k, get_price_summaries_k, get_user_info_k, get_user_pages_stats_k,
    get_users_page_k, pool_id_to_seed_str, program_id, users_page_seed_str, BASE_PDA_ID,
    LM_APT_VAULT_ID, POOL_SUMMARIES_ID, PRICE_PDA_ID, PRICE_SUMMARIES_ID, PROGRAM_ID,
    SYSTEM_PROGRAM_ID, TOKEN_PROGRAM_ID, USER_INFO_SEED, USER_STATS_ID,
};
use apricot_client::error::ApricotError;
use apricot_client::pubkey::{Pubkey, MAX_SEED_LEN, PDA_MARKER, PUBKEY_BYTES};
use std::str::FromStr;

fn decode(text: &str) -> [u8; 32] {
    solana_program::pubkey::Pubkey::from_str(text).unwrap().to_bytes()
}

fn outside(key: &Pubkey) -> solana_program::pubkey::Pubkey {
    solana_program::pubkey::Pubkey::new_from_array(key.to_bytes())
}

fn derive(base: &Pubkey, seed: &str, owner: &Pubkey) -> [u8; 32] {
    solana_program::pubkey::Pubkey::create_with_seed(&outside(base), seed, &outside(owner))
        .unwrap()
        .to_bytes()
}

#[test]
fn fixed_addresses_match_their_text() {
    assert_eq!(PROGRAM_ID, decode("6UeJYTLU1adaoHWeApWsoj1xNEDbWA2RhM2DLc8CrDDi"));
    assert_eq!(BASE_PDA_ID, decode("7Ne6h2w3LpTNTa7CNYcUs7UkjeJT3oW7jcrXWfVScTXW"));
    assert_eq!(PRICE_PDA_ID, decode("CNyLieChpAUFLehaX9sQvjWUQCXPwJ1aEYDEYp8tPgPF"));
    assert_eq!(USER_STATS_ID, decode("Ew2JZxifBaPJHbM5AxZqWXXRAZSzScm7rbqYPpReLyzi"));
    assert_eq!(POOL_SUMMARIES_ID, decode("2Rqfnx1VsNjhR1GBXnM1TJc86n2H6E8C7S28KiUdFA6q"));
    assert_eq!(PRICE_SUMMARIES_ID, decode("AvBhFJACkkWoo4qJ89kgMoGfk3xKxr2i1oG9DJDKF7uf"));
    assert_eq!(LM_APT_VAULT_ID, decode("C1k4CehboSgUkmL3BJfw32Xj9HPs9NKTzhT5WXsYwWh4"));
    assert_eq!(TOKEN_PROGRAM_ID, decode("TokenkegQfeZyiNwAJbNbGKPFXCWuBvf9Ss623VQ5DA"));
    assert_eq!(SYSTEM_PROGRAM_ID, decode("11111111111111111111111111111111"));
    assert_eq!(
        apricot_client::consts::ASSOCIATED_TOKEN_PROGRAM_ID,
        decode("ATokenGPvbdGVxr1b2hvZbsiqW5xWH25efTNsLJA8knL")
    );
}

#[test]
fn fixed_addresses_match_the_outside_crates() {
    assert_eq!(TOKEN_PROGRAM_ID, spl_token::id().to_bytes());
    assert_eq!(
        apricot_client::consts::ASSOCIATED_TOKEN_PROGRAM_ID,
        spl_associated_token_account::id().to_bytes()
    );
    assert_eq!(SYSTEM_PROGRAM_ID, solana_sdk_ids::system_program::id().to_bytes());
}

#[test]
fn getters_return_the_fixed_addresses() {
    assert_eq!(program_id().to_bytes(), PROGRAM_ID);
    assert_eq!(get_base_pda().to_bytes(), BASE_PDA_ID);
    assert_eq!(get_pool_summaries_k().to_bytes(), POOL_SUMMARIES_ID);
    assert_eq!(get_price_summaries_k().to_bytes(), PRICE_SUMMARIES_ID);
    assert_eq!(get_user_pages_stats_k().to_bytes(), USER_STATS_ID);
    assert_eq!(get_lm_apt_vault_k().to_bytes(), LM_APT_VAULT_ID);
}

#[test]
fn pool_seed_has_two_letters_for_the_number() {
    let mut buffer = [0u8; 8];
    assert_eq!(pool_id_to_seed_str(0, &mut buffer), "POOL__aa");
    assert_eq!(&buffer, b"POOL__aa");
    assert_eq!(pool_id_to_seed_str(27, &mut buffer), "POOL__bl");
    assert_eq!(&buffer, b"POOL__bl");
    assert_eq!(pool_id_to_seed_str(255, &mut buffer), "POOL__pp");
    assert_eq!(&buffer, b"POOL__pp");
    assert_eq!(pool_id_to_seed_str(16, &mut buffer), "POOL__ba");
    assert_eq!(pool_id_to_seed_str(15, &mut buffer), "POOL__ap");
}

#[test]
fn pool_seeds_differ_for_every_pair_of_pools() {
    let mut buffer = [0u8; 8];
    let mut seen = std::collections::HashSet::new();
    for pool_id in 0..=255u8 {
        let seed = pool_id_to_seed_str(pool_id, &mut buffer);
        assert_eq!(seed.len(), 8);
        assert!(seen.insert(seed));
    }
}

#[test]
fn users_page_seed_is_the_prefix_and_the_decimal_number() {
    assert_eq!(users_page_seed_str(0), "UsersPage_0");
    assert_eq!(users_page_seed_str(7), "UsersPage_7");
    assert_eq!(users_page_seed_str(10), "UsersPage_10");
    assert_eq!(users_page_seed_str(305), "UsersPage_305");
    assert_eq!(users_page_seed_str(4999), "UsersPage_4999");
    assert_eq!(users_page_seed_str(65535), "UsersPage_65535");
    for page_id in [1u16, 9, 99, 100, 1000, 9999, 10000, 12345, 60000] {
        assert_eq!(users_page_seed_str(page_id), format!("UsersPage_{}", page_id));
    }
}

#[test]
fn user_info_address_is_derived_from_the_wallet() {
    let wallet = Pubkey::new_from_array([7u8; 32]);
    let program = Pubkey::new_from_array(PROGRAM_ID);
    assert_eq!(USER_INFO_SEED, "UserInfo");
    assert_eq!(get_user_info_k(&wallet).to_bytes(), derive(&wallet, "UserInfo", &program));
    assert_ne!(get_user_info_k(&wallet).to_bytes(), wallet.to_bytes());
}

#[test]
fn users_page_address_is_derived_from_the_base() {
    let base = Pubkey::new_from_array(BASE_PDA_ID);
    let program = Pubkey::new_from_array(PROGRAM_ID);
    assert_eq!(get_users_page_k(0).to_bytes(), derive(&base, "UsersPage_0", &program));
    assert_eq!(get_users_page_k(4321).to_bytes(), derive(&base, "UsersPage_4321", &program));
    assert_eq!(get_users_page_k(65535).to_bytes(), derive(&base, "UsersPage_65535", &program));
}

#[test]
fn asset_pool_address_is_derived_from_the_base() {
    let base = Pubkey::new_from_array(BASE_PDA_ID);
    let program = Pubkey::new_from_array(PROGRAM_ID);
    assert_eq!(get_asset_pool_k(0).to_bytes(), derive(&base, "POOL__aa", &program));
    assert_eq!(get_asset_pool_k(27).to_bytes(), derive(&base, "POOL__bl", &program));
    assert_eq!(get_asset_pool_k(255).to_bytes(), derive(&base, "POOL__pp", &program));
}

#[test]
fn asset_pool_token_address_is_owned_by_the_token_program() {
    let base = Pubkey::new_from_array(BASE_PDA_ID);
    let token_program = Pubkey::new_from_array(TOKEN_PROGRAM_ID);
    assert!(!token_program.has_pda_marker());
    assert_eq!(
        get_asset_pool_spl_k(&token_program, 3).to_bytes(),
        derive(&base, "POOL__ad", &token_program)
    );
    assert_ne!(get_asset_pool_spl_k(&token_program, 3), get_asset_pool_k(3));
}

#[test]
fn derivation_is_deterministic() {
    let wallet = Pubkey::new_from_array([42u8; 32]);
    assert_eq!(get_user_info_k(&wallet), get_user_info_k(&wallet));
    assert_eq!(get_users_page_k(12), get_users_page_k(12));
    assert_eq!(get_asset_pool_k(12), get_asset_pool_k(12));
}

#[test]
fn changing_one_input_changes_the_address() {
    let one = Pubkey::new_from_array([1u8; 32]);
    let two = Pubkey::new_from_array([2u8; 32]);
    let token_program = Pubkey::new_from_array(TOKEN_PROGRAM_ID);
    assert_ne!(get_user_info_k(&one), get_user_info_k(&two));
    assert_ne!(get_asset_pool_k(1), get_asset_pool_k(2));
    assert_ne!(get_asset_pool_k(1), get_asset_pool_k(16));
    assert_ne!(get_users_page_k(1), get_users_page_k(10));
    assert_ne!(get_users_page_k(1), get_users_page_k(2));
    assert_ne!(get_asset_pool_spl_k(&token_program, 1), get_asset_pool_spl_k(&one, 1));
    let mut pools = std::collections::HashSet::new();
    for pool_id in 0..=255u8 {
        assert!(pools.insert(get_asset_pool_k(pool_id).to_bytes()));
    }
}

#[test]
fn marker_of_derived_addresses_is_recognised() {
    let mut bytes = [0u8; 32];
    bytes[11..].copy_from_slice(b"ProgramDerivedAddress");
    assert_eq!(&PDA_MARKER, b"ProgramDerivedAddress");
    assert!(Pubkey::new_from_array(bytes).has_pda_marker());
    bytes[31] = b'S';
    assert!(!Pubkey::new_from_array(bytes).has_pda_marker());
    bytes[31] = b's';
    bytes[11] = b'p';
    assert!(!Pubkey::new_from_array(bytes).has_pda_marker());
    assert!(!Pubkey::new_from_array(PROGRAM_ID).has_pda_marker());
    assert!(!Pubkey::new_from_array([0u8; 32]).has_pda_marker());
}

#[test]
fn an_owner_with_the_marker_is_refused_by_the_outside_derivation() {
    let mut bytes = [9u8; 32];
    bytes[11..].copy_from_slice(b"ProgramDerivedAddress");
    let owner = Pubkey::new_from_array(bytes);
    assert!(owner.has_pda_marker());
    let refused = solana_program::pubkey::Pubkey::create_with_seed(
        &outside(&get_base_pda()),
        "POOL__aa",
        &outside(&owner),
    );
    assert!(refused.is_err());
}

#[test]
fn address_is_derived_as_the_outside_crate_derives_it() {
    let base = Pubkey::new_from_array([3u8; 32]);
    let owner = Pubkey::new_from_array([4u8; 32]);
    for seed in ["", "a", "UserInfo", "POOL__aa", "0123456789abcdef0123456789abcdef", "\u{e9}t\u{e9}"] {
        let derived = Pubkey::create_with_seed(&base, seed, &owner).unwrap();
        assert_eq!(derived.to_bytes(), derive(&base, seed, &owner), "{}", seed);
        assert_ne!(derived, base);
        assert_ne!(derived, owner);
    }
    assert_eq!(PUBKEY_BYTES, 32);
}

#[test]
fn seed_of_more_than_32_bytes_is_refused() {
    let base = Pubkey::new_from_array([3u8; 32]);
    let owner = Pubkey::new_from_array([4u8; 32]);
    assert_eq!(MAX_SEED_LEN, 32);
    assert!(Pubkey::create_with_seed(&base, &"s".repeat(32), &owner).is_ok());
    assert_eq!(
        Pubkey::create_with_seed(&base, &"s".repeat(33), &owner),
        Err(ApricotError::MaxSeedLengthExceeded)
    );
    // seventeen letters of two bytes each
    assert_eq!(
        Pubkey::create_with_seed(&base, &"\u{e9}".repeat(17), &owner),
        Err(ApricotError::MaxSeedLengthExceeded)
    );
    assert!(Pubkey::create_with_seed(&base, &"\u{e9}".repeat(16), &owner).is_ok());
}

#[test]
fn owner_with_the_marker_is_refused() {
    let base = Pubkey::new_from_array([3u8; 32]);
    let mut bytes = [9u8; 32];
    bytes[11..].copy_from_slice(b"ProgramDerivedAddress");
    let owner = Pubkey::new_from_array(bytes);
    assert_eq!(Pubkey::create_with_seed(&base, "seed", &owner), Err(ApricotError::IllegalOwner));
    // the length of the seed is looked at first
    assert_eq!(
        Pubkey::create_with_seed(&base, &"s".repeat(40), &owner),
        Err(ApricotError::MaxSeedLengthExceeded)
    );
}

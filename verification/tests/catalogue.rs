use apricot_client::config::{
    get_mint_by_pool_id, get_pool_id_by_name, APT_ID, APT_NAME, APT_POOL_ID, BTC_POOL_ID,
    MSOL_SOL_ORCA_FLOATING_LP_2ND_ID, RAY_USDC_RAYDIUM_REWARD_SECOND_ACCOUNT_ID, SOL_ID,
    USDT_USDC_SABER_MINER_ID,
};
use apricot_client::error::ApricotError;
use std::str::FromStr;

fn decode(text: &str) -> [u8; 32] {
    solana_program::pubkey::Pubkey::from_str(text).unwrap().to_bytes()
}

const POOLS: [(&str, u8, &str); 39] = [
    ("APT", 27, "APTtJyaRX5yGTsJU522N4VYWg3vCvSb65eam5GrPT5Rt"),
    ("BTC", 0, "9n4nbM75f5Ui33ZbPYXn59EwSgE8CGsHtAeTH5YFeJ9E"),
    ("ETH", 1, "2FPyTwcZLUg1MDrwsyoP4D6s1tM7hAkHYRjkNb5w6Pxk"),
    ("whETH", 36, "7vfCXTUXx5WJV5JADk17DUJ4ksgau7utNKj4b963voxs"),
    ("SOL", 4, "So11111111111111111111111111111111111111112"),
    ("mSOL", 12, "mSoLzYCxHdYgdzU16g5QSh3i5K3z3KZK7ytfqcJm7So"),
    ("stSOL", 35, "7dHbWXmci3dT8UFYWYZweBLXgycu7Y3iL6trKn1Y7ARj"),
    ("scnSOL", 37, "5oVNBeEEQvYi1cX3ir8Dx5n1P7pdxydbGF2X4TxVusJm"),
    ("RAY", 11, "4k3Dyjzvzp8eMZWUXbBCjEvwSkkk59S5iCNLY3QrkX6R"),
    ("ORCA", 13, "orcaEKTdK7LKz57vaAYr9QeNsVEPfiu6QeMU1kektZE"),
    ("SRM", 30, "SRMuApVNdxXokk5GT7XD5cUUgXMBCoAz2LHeuAoKWRt"),
    ("USDT", 2, "Es9vMFrzaCERmJfrF4H2FYD4KCoNkY11McCe8BenwNYB"),
    ("USDC", 3, "EPjFWdd5AufqSSqeM2qN1xzybapC8G4wEGGkZwyTDt1v"),
    ("UST", 21, "9vMJfxuKxXBoEa7rM12mYLMwTacLMLDJqHozw96WQL8i"),
    ("USDT_USDC_SABER", 5, "2poo1w1DL6yd2WNTCnNTzDqkC6MBXq7axo77P16yrBuf"),
    ("mSOL_SOL_SABER", 40, "SoLEao8wTzSfqhuou8rcYsVoLjthVmiXuEjzdNPMnCz"),
    ("stSOL_SOL_SABER", 41, "stSjCmjQ96BiGhTk8gkU22j1739R8YBQVMq7KXWTqUV"),
    ("UST_USDC_SABER", 26, "USTCmQpbUGj5iTsXdnTYHZupY1QpftDZhLokSVk6UWi"),
    ("USDC_USDT_ORCA", 8, "H2uzgruPvonVpCRhwwdukcpXK8TG17swFNzYFr2rtPxy"),
    ("SOL_USDC_ORCA", 15, "APDFRM3HMr8CAGXwKHiu2f5ePSpaiEJhaURwhsRrUUt9"),
    ("mSOL_SOL_ORCA", 16, "29cdoMgu6MS2VXpcMo1sqRdWEzdUR9tjvoh8fcK8Z87R"),
    ("ORCA_USDC_ORCA", 17, "n8Mpu28RjeYD7oUX3LG1tPxzhRZh3YYLRSHcHRdS3Zx"),
    ("ORCA_SOL_ORCA", 18, "2uVjAuRXavpM6h1scGQaxqb6HVaNRn6T2X7HHXTabz25"),
    ("ETH_USDC_ORCA", 19, "3e1W6Aqcbuk2DfHUwRiRcyzpyYRRjg6yhZZcyEARydUX"),
    ("SOL_USDT_ORCA", 20, "FZthQCuYHhcfiDma7QrX7buDHwrZEd7vL8SjS6LQa3Tx"),
    ("ETH_SOL_ORCA", 23, "71FymgN2ZUf7VvVTLE8jYEnjP3jSK1Frp2XT1nHs8Hob"),
    ("APT_USDC_ORCA", 28, "HNrYngS1eoqkjWro9D3Y5Z9sWBDzPNK2tX4rfV2Up177"),
    ("BTC_mSOL_ORCA", 24, "8nKJ4z9FSw6wrVZKASqBiS9DS1CiNsRnqwCCKVQjqdkB"),
    ("mSOL_USDC_ORCA", 25, "8PSfyiTVwPb6Rr2iZ8F3kNpbg65BCfJM9v8LfB916r44"),
    ("stSOL_UST_ORCA", 38, "HTZd53fYwYQRyAjiaPsZy9Gf41gobFdqkF4oKe3XLi95"),
    ("ORCA_whETH_ORCA", 39, "GsfyYHkSgC3Ta6aWR9MjB2sxoBrkGGeR2tAwXbpphf3"),
    ("SOL_USDC_RAYDIUM", 9, "8HoQnePLqPj4M7PUDzfw8e3Ymdwgc7NLGnaTUapubyvu"),
    ("RAY_USDC_RAYDIUM", 10, "FbC6K13MzHvN42bXrtGaWsvZY9fxrackRSZcBGfjPc7m"),
    ("SOL_USDT_RAYDIUM", 14, "Epm4KfTj4DMrvqn6Bwg2Tr2N8vhQuNbuK8bESFp4k33K"),
    ("mSOL_SOL_RAYDIUM", 22, "5ijRoAHVgd5T5CNtK5KDRUBZ7Bffb69nktMj5n6ks6m4"),
    ("RAY_USDT_RAYDIUM", 31, "C3sT1R3nsw4AVdepvLTLKr5Gvszr7jufyBWUCvy4TUvT"),
    ("RAY_ETH_RAYDIUM", 32, "mjQH33MqZv5aKAbKHi8dG3g3qXeRQqq1GFcXceZkNSr"),
    ("RAY_SOL_RAYDIUM", 33, "89ZKE4aoyfLBe2RuV6jM3JGNhaV18Nxh8eNtjRcndBip"),
    ("SRM_USDC_RAYDIUM", 34, "9XnZd82j34KxNLgQfz29jGbYdxsYznTWRpvZE3SRE7JG"),
];

#[test]
fn every_pool_is_found_by_its_name() {
    for (name, pool_id, _) in POOLS {
        assert_eq!(get_pool_id_by_name(name), Ok(pool_id), "{}", name);
    }
}

#[test]
fn every_pool_has_the_mint_of_its_token() {
    for (name, pool_id, mint) in POOLS {
        let found = get_mint_by_pool_id(pool_id).unwrap();
        assert_eq!(found.to_bytes(), decode(mint), "{}", name);
    }
}

#[test]
fn named_constants_agree_with_the_lookups() {
    assert_eq!(APT_NAME, "APT");
    assert_eq!(APT_POOL_ID, 27);
    assert_eq!(BTC_POOL_ID, 0);
    assert_eq!(get_pool_id_by_name(APT_NAME), Ok(APT_POOL_ID));
    assert_eq!(get_mint_by_pool_id(APT_POOL_ID).unwrap().to_bytes(), APT_ID);
    assert_eq!(SOL_ID, decode("So11111111111111111111111111111111111111112"));
}

#[test]
fn farm_accounts_match_their_text() {
    assert_eq!(
        USDT_USDC_SABER_MINER_ID,
        decode("GP1U66jGiiscj4HotJP7JTj76jpygdUaTUJT6HPbkoKn")
    );
    assert_eq!(
        MSOL_SOL_ORCA_FLOATING_LP_2ND_ID,
        decode("5QpEXnCWMyUHNwE1jFUZq4gzNzmke9XJ2qCZjeBvMqz3")
    );
    assert_eq!(
        RAY_USDC_RAYDIUM_REWARD_SECOND_ACCOUNT_ID,
        decode("11111111111111111111111111111111")
    );
}

#[test]
fn unknown_token_name_is_an_error() {
    assert_eq!(get_pool_id_by_name("DOGE"), Err(ApricotError::UnknownToken));
    assert_eq!(get_pool_id_by_name(""), Err(ApricotError::UnknownToken));
    assert_eq!(get_pool_id_by_name("apt"), Err(ApricotError::UnknownToken));
    assert_eq!(get_pool_id_by_name("APT "), Err(ApricotError::UnknownToken));
    assert_eq!(get_pool_id_by_name("AP"), Err(ApricotError::UnknownToken));
    assert_eq!(get_pool_id_by_name("MSOL"), Err(ApricotError::UnknownToken));
}

#[test]
fn unmapped_pool_number_is_an_error() {
    let mapped: Vec<u8> = POOLS.iter().map(|p| p.1).collect();
    for pool_id in 0..=255u8 {
        let found = get_mint_by_pool_id(pool_id);
        if mapped.contains(&pool_id) {
            assert!(found.is_ok(), "{}", pool_id);
        } else {
            assert_eq!(found, Err(ApricotError::UnknownPool), "{}", pool_id);
        }
    }
    assert_eq!(get_mint_by_pool_id(6), Err(ApricotError::UnknownPool));
    assert_eq!(get_mint_by_pool_id(7), Err(ApricotError::UnknownPool));
    assert_eq!(get_mint_by_pool_id(29), Err(ApricotError::UnknownPool));
    assert_eq!(get_mint_by_pool_id(42), Err(ApricotError::UnknownPool));
}

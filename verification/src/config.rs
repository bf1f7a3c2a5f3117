//! The catalogue of pools: each pool's token name, its number and the mint of
//! its token, with the accounts of the farms in which some pools are staked.
//!
//! The catalogue is fixed. A pool is found by its token name or by its
//! number; a name or a number that the catalogue does not hold is an error,
//! never a default.

use crate::error::ApricotError;
use crate::pubkey::Pubkey;
use vstd::prelude::*;
use vstd::string::*;
use vstd::utf8::{encode_utf8, encode_utf8_decode_utf8};

verus! {

/// Token name of pool 27.
pub const APT_NAME: &'static str = "APT";

/// Number of the pool of `APT`.
pub const APT_POOL_ID: u8 = 27;

/// Mint of `APT`: `APTtJyaRX5yGTsJU522N4VYWg3vCvSb65eam5GrPT5Rt`.
pub const APT_ID: [u8; 32] = [
    139, 122, 91, 212, 137, 130, 162, 109, 100, 54, 203, 153, 215, 162, 199, 234,
    144, 228, 109, 56, 98, 90, 11, 219, 116, 225, 204, 88, 134, 167, 183, 3,
];

/// Token name of pool 0.
pub const BTC_NAME: &'static str = "BTC";

/// Number of the pool of `BTC`.
pub const BTC_POOL_ID: u8 = 0;

/// Mint of `BTC`: `9n4nbM75f5Ui33ZbPYXn59EwSgE8CGsHtAeTH5YFeJ9E`.
pub const BTC_ID: [u8; 32] = [
    130, 104, 233, 169, 161, 68, 76, 43, 165, 199, 122, 81, 147, 104, 86, 176,
    114, 228, 63, 239, 207, 245, 228, 176, 30, 153, 98, 60, 142, 187, 119, 73,
];

/// Token name of pool 1.
pub const ETH_NAME: &'static str = "ETH";

/// Number of the pool of `ETH`.
pub const ETH_POOL_ID: u8 = 1;

/// Mint of `ETH`: `2FPyTwcZLUg1MDrwsyoP4D6s1tM7hAkHYRjkNb5w6Pxk`.
pub const ETH_ID: [u8; 32] = [
    18, 139, 203, 100, 125, 139, 173, 30, 114, 80, 227, 184, 52, 188, 250, 159,
    217, 134, 244, 212, 119, 209, 187, 185, 5, 78, 96, 43, 17, 235, 224, 97,
];

/// Token name of pool 36.
pub const WHETH_NAME: &'static str = "whETH";

/// Number of the pool of `whETH`.
pub const WHETH_POOL_ID: u8 = 36;

/// Mint of `whETH`: `7vfCXTUXx5WJV5JADk17DUJ4ksgau7utNKj4b963voxs`.
pub const WHETH_ID: [u8; 32] = [
    102, 229, 24, 138, 19, 8, 161, 219, 144, 182, 211, 31, 63, 189, 202, 140,
    61, 242, 103, 140, 129, 18, 223, 221, 61, 25, 44, 90, 60, 196, 87, 168,
];

/// Token name of pool 4.
pub const SOL_NAME: &'static str = "SOL";

/// Number of the pool of `SOL`.
pub const SOL_POOL_ID: u8 = 4;

/// Mint of `SOL`: `So11111111111111111111111111111111111111112`.
pub const SOL_ID: [u8; 32] = [
    6, 155, 136, 87, 254, 171, 129, 132, 251, 104, 127, 99, 70, 24, 192, 53,
    218, 196, 57, 220, 26, 235, 59, 85, 152, 160, 240, 0, 0, 0, 0, 1,
];

/// Token name of pool 12.
pub const MSOL_NAME: &'static str = "mSOL";

/// Number of the pool of `mSOL`.
pub const MSOL_POOL_ID: u8 = 12;

/// Mint of `mSOL`: `mSoLzYCxHdYgdzU16g5QSh3i5K3z3KZK7ytfqcJm7So`.
pub const MSOL_ID: [u8; 32] = [
    11, 98, 186, 7, 79, 114, 44, 157, 65, 20, 242, 216, 247, 10, 0, 198,
    96, 2, 51, 123, 155, 249, 12, 135, 54, 87, 166, 210, 1, 219, 76, 128,
];

/// Token name of pool 35.
pub const STSOL_NAME: &'static str = "stSOL";

/// Number of the pool of `stSOL`.
pub const STSOL_POOL_ID: u8 = 35;

/// Mint of `stSOL`: `7dHbWXmci3dT8UFYWYZweBLXgycu7Y3iL6trKn1Y7ARj`.
pub const STSOL_ID: [u8; 32] = [
    98, 113, 203, 113, 25, 71, 107, 157, 206, 0, 216, 21, 200, 255, 49, 95,
    200, 191, 125, 40, 72, 99, 61, 52, 148, 42, 223, 213, 53, 242, 222, 254,
];

/// Token name of pool 37.
pub const SCNSOL_NAME: &'static str = "scnSOL";

/// Number of the pool of `scnSOL`.
pub const SCNSOL_POOL_ID: u8 = 37;

/// Mint of `scnSOL`: `5oVNBeEEQvYi1cX3ir8Dx5n1P7pdxydbGF2X4TxVusJm`.
pub const SCNSOL_ID: [u8; 32] = [
    71, 87, 137, 159, 184, 190, 219, 162, 135, 120, 170, 205, 103, 229, 104, 231,
    52, 112, 204, 233, 11, 205, 83, 43, 108, 182, 24, 41, 118, 40, 130, 78,
];

/// Token name of pool 11.
pub const RAY_NAME: &'static str = "RAY";

/// Number of the pool of `RAY`.
pub const RAY_POOL_ID: u8 = 11;

/// Mint of `RAY`: `4k3Dyjzvzp8eMZWUXbBCjEvwSkkk59S5iCNLY3QrkX6R`.
pub const RAY_ID: [u8; 32] = [
    55, 153, 140, 203, 242, 208, 69, 139, 97, 92, 188, 198, 177, 163, 103, 196,
    116, 158, 159, 239, 115, 6, 98, 46, 27, 27, 88, 145, 1, 32, 188, 154,
];

/// Token name of pool 13.
pub const ORCA_NAME: &'static str = "ORCA";

/// Number of the pool of `ORCA`.
pub const ORCA_POOL_ID: u8 = 13;

/// Mint of `ORCA`: `orcaEKTdK7LKz57vaAYr9QeNsVEPfiu6QeMU1kektZE`.
pub const ORCA_ID: [u8; 32] = [
    12, 0, 208, 175, 235, 134, 20, 218, 127, 25, 171, 160, 45, 64, 241, 140,
    105, 37, 133, 246, 80, 32, 223, 206, 211, 213, 229, 249, 169, 192, 196, 225,
];

/// Token name of pool 30.
pub const SRM_NAME: &'static str = "SRM";

/// Number of the pool of `SRM`.
pub const SRM_POOL_ID: u8 = 30;

/// Mint of `SRM`: `SRMuApVNdxXokk5GT7XD5cUUgXMBCoAz2LHeuAoKWRt`.
pub const SRM_ID: [u8; 32] = [
    6, 131, 16, 134, 26, 152, 50, 125, 5, 80, 87, 77, 132, 65, 138, 166,
    225, 12, 51, 82, 221, 170, 127, 215, 245, 129, 82, 204, 238, 178, 56, 135,
];

/// Token name of pool 2.
pub const USDT_NAME: &'static str = "USDT";

/// Number of the pool of `USDT`.
pub const USDT_POOL_ID: u8 = 2;

/// Mint of `USDT`: `Es9vMFrzaCERmJfrF4H2FYD4KCoNkY11McCe8BenwNYB`.
pub const USDT_ID: [u8; 32] = [
    206, 1, 14, 96, 175, 237, 178, 39, 23, 189, 99, 25, 47, 84, 20, 90,
    63, 150, 90, 51, 187, 130, 210, 199, 2, 158, 178, 206, 30, 32, 130, 100,
];

/// Token name of pool 3.
pub const USDC_NAME: &'static str = "USDC";

/// Number of the pool of `USDC`.
pub const USDC_POOL_ID: u8 = 3;

/// Mint of `USDC`: `EPjFWdd5AufqSSqeM2qN1xzybapC8G4wEGGkZwyTDt1v`.
pub const USDC_ID: [u8; 32] = [
    198, 250, 122, 243, 190, 219, 173, 58, 61, 101, 243, 106, 171, 201, 116, 49,
    177, 187, 228, 194, 210, 246, 224, 228, 124, 166, 2, 3, 69, 47, 93, 97,
];

/// Token name of pool 21.
pub const UST_NAME: &'static str = "UST";

/// Number of the pool of `UST`.
pub const UST_POOL_ID: u8 = 21;

/// Mint of `UST`: `9vMJfxuKxXBoEa7rM12mYLMwTacLMLDJqHozw96WQL8i`.
pub const UST_ID: [u8; 32] = [
    132, 136, 60, 163, 189, 190, 28, 21, 175, 142, 180, 76, 227, 227, 127, 196,
    112, 8, 153, 202, 136, 147, 151, 216, 8, 98, 3, 175, 170, 89, 25, 243,
];

/// Token name of pool 5.
pub const USDT_USDC_SABER_NAME: &'static str = "USDT_USDC_SABER";

/// Number of the pool of `USDT_USDC_SABER`.
pub const USDT_USDC_SABER_POOL_ID: u8 = 5;

/// Mint of `USDT_USDC_SABER`: `2poo1w1DL6yd2WNTCnNTzDqkC6MBXq7axo77P16yrBuf`.
pub const USDT_USDC_SABER_ID: [u8; 32] = [
    27, 26, 228, 247, 44, 177, 48, 231, 25, 145, 9, 115, 103, 139, 148, 71,
    1, 44, 32, 94, 4, 235, 193, 148, 92, 174, 237, 8, 1, 18, 129, 158,
];

/// The miner account of the farm of `USDT_USDC_SABER`:
/// `GP1U66jGiiscj4HotJP7JTj76jpygdUaTUJT6HPbkoKn`.
pub const USDT_USDC_SABER_MINER_ID: [u8; 32] = [
    228, 130, 156, 25, 239, 160, 238, 164, 176, 145, 99, 204, 15, 84, 12, 77,
    116, 21, 43, 48, 10, 9, 18, 169, 193, 11, 135, 168, 107, 71, 245, 209,
];

/// Token name of pool 40.
pub const MSOL_SOL_SABER_NAME: &'static str = "mSOL_SOL_SABER";

/// Number of the pool of `mSOL_SOL_SABER`.
pub const MSOL_SOL_SABER_POOL_ID: u8 = 40;

/// Mint of `mSOL_SOL_SABER`: `SoLEao8wTzSfqhuou8rcYsVoLjthVmiXuEjzdNPMnCz`.
pub const MSOL_SOL_SABER_ID: [u8; 32] = [
    6, 155, 232, 85, 234, 209, 28, 148, 29, 239, 210, 33, 210, 166, 70, 56,
    68, 1, 16, 226, 96, 142, 176, 6, 20, 218, 165, 253, 129, 75, 38, 43,
];

/// The miner account of the farm of `mSOL_SOL_SABER`:
/// `73asEXQWZZqUUG58gY8vovh9wNQxUsKT7tKq8eZzPJhT`.
pub const MSOL_SOL_SABER_MINER_ID: [u8; 32] = [
    89, 207, 147, 96, 31, 60, 10, 19, 72, 89, 235, 170, 60, 84, 234, 252,
    186, 171, 73, 32, 176, 27, 35, 81, 51, 253, 77, 22, 107, 73, 21, 78,
];

/// Token name of pool 41.
pub const STSOL_SOL_SABER_NAME: &'static str = "stSOL_SOL_SABER";

/// Number of the pool of `stSOL_SOL_SABER`.
pub const STSOL_SOL_SABER_POOL_ID: u8 = 41;

/// Mint of `stSOL_SOL_SABER`: `stSjCmjQ96BiGhTk8gkU22j1739R8YBQVMq7KXWTqUV`.
pub const STSOL_SOL_SABER_ID: [u8; 32] = [
    13, 9, 53, 56, 156, 8, 101, 96, 151, 69, 68, 158, 23, 140, 174, 144,
    13, 2, 61, 182, 250, 84, 99, 248, 95, 124, 227, 2, 114, 101, 120, 26,
];

/// The miner account of the farm of `stSOL_SOL_SABER`:
/// `AE3BisWAMqs695qU7Y2L6s52v7N79MMTNQRbvqytXNJU`.
pub const STSOL_SOL_SABER_MINER_ID: [u8; 32] = [
    137, 16, 52, 10, 120, 235, 234, 45, 48, 39, 218, 155, 245, 207, 93, 57,
    53, 146, 123, 204, 134, 195, 13, 133, 27, 170, 193, 160, 251, 167, 12, 73,
];

/// Token name of pool 26.
pub const UST_USDC_SABER_NAME: &'static str = "UST_USDC_SABER";

/// Number of the pool of `UST_USDC_SABER`.
pub const UST_USDC_SABER_POOL_ID: u8 = 26;

/// Mint of `UST_USDC_SABER`: `USTCmQpbUGj5iTsXdnTYHZupY1QpftDZhLokSVk6UWi`.
pub const UST_USDC_SABER_ID: [u8; 32] = [
    7, 7, 117, 211, 102, 73, 71, 165, 146, 139, 137, 75, 188, 205, 227, 38,
    255, 134, 201, 85, 161, 48, 77, 80, 49, 96, 93, 23, 104, 151, 215, 63,
];

/// The miner account of the farm of `UST_USDC_SABER`:
/// `HgkCE5MPdDRKaYAY51smAJTToYsjUn2oLy5K9ZQYL4WP`.
pub const UST_USDC_SABER_MINER_ID: [u8; 32] = [
    247, 233, 123, 65, 143, 98, 240, 37, 96, 89, 101, 84, 201, 13, 159, 152,
    141, 125, 141, 48, 226, 185, 251, 240, 71, 36, 81, 109, 57, 191, 243, 92,
];

/// Token name of pool 8.
pub const USDC_USDT_ORCA_NAME: &'static str = "USDC_USDT_ORCA";

/// Number of the pool of `USDC_USDT_ORCA`.
pub const USDC_USDT_ORCA_POOL_ID: u8 = 8;

/// Mint of `USDC_USDT_ORCA`: `H2uzgruPvonVpCRhwwdukcpXK8TG17swFNzYFr2rtPxy`.
pub const USDC_USDT_ORCA_ID: [u8; 32] = [
    238, 56, 126, 41, 194, 134, 139, 199, 160, 161, 194, 199, 158, 66, 249, 101,
    211, 102, 204, 189, 71, 160, 50, 59, 80, 61, 9, 153, 132, 244, 107, 174,
];

/// The program's state in the farm of `USDC_USDT_ORCA`:
/// `6s2gUuvYKF56j9TkmvLw2zQc3XiCqFa5ZJ7mWzTx2Xtp`.
pub const USDC_USDT_ORCA_USER_FARM_STATE_ID: [u8; 32] = [
    87, 27, 96, 30, 234, 51, 69, 42, 228, 200, 117, 223, 144, 129, 106, 8,
    146, 41, 202, 61, 139, 92, 167, 148, 59, 63, 228, 190, 252, 74, 209, 141,
];

/// The account that receives the ORCA rewards of the farm of `USDC_USDT_ORCA`:
/// `FSQWYCVXiGXRfKd1NmchusEa9wADez9eQGt5RY5eDjiy`.
pub const USDC_USDT_ORCA_REWARD_ORCA_ACCOUNT_ID: [u8; 32] = [
    214, 133, 184, 30, 151, 156, 120, 182, 203, 66, 225, 82, 153, 192, 105, 161,
    142, 133, 58, 249, 90, 15, 248, 94, 225, 168, 90, 82, 70, 37, 120, 218,
];

/// Token name of pool 15.
pub const SOL_USDC_ORCA_NAME: &'static str = "SOL_USDC_ORCA";

/// Number of the pool of `SOL_USDC_ORCA`.
pub const SOL_USDC_ORCA_POOL_ID: u8 = 15;

/// Mint of `SOL_USDC_ORCA`: `APDFRM3HMr8CAGXwKHiu2f5ePSpaiEJhaURwhsRrUUt9`.
pub const SOL_USDC_ORCA_ID: [u8; 32] = [
    139, 105, 207, 71, 241, 123, 106, 179, 110, 185, 220, 172, 148, 123, 186, 246,
    102, 110, 140, 43, 89, 123, 138, 37, 134, 27, 171, 253, 98, 22, 206, 42,
];

/// The program's state in the farm of `SOL_USDC_ORCA`:
/// `BHRqAQrYye19sQho6knsGazThRaKg4nVeZBLb1iz8RUq`.
pub const SOL_USDC_ORCA_USER_FARM_STATE_ID: [u8; 32] = [
    152, 202, 60, 238, 111, 198, 172, 58, 254, 59, 157, 134, 247, 164, 100, 125,
    126, 74, 152, 206, 41, 72, 204, 52, 44, 200, 176, 24, 197, 177, 251, 246,
];

/// The account that receives the ORCA rewards of the farm of `SOL_USDC_ORCA`:
/// `Hr5yQGW35HBP8fJLKfranRbbKzfSPHrhKFf1ZP68LmVp`.
pub const SOL_USDC_ORCA_REWARD_ORCA_ACCOUNT_ID: [u8; 32] = [
    250, 78, 18, 164, 2, 254, 68, 181, 172, 57, 245, 131, 163, 58, 61, 73,
    72, 86, 196, 216, 16, 67, 215, 109, 19, 188, 219, 70, 115, 88, 62, 191,
];

/// Token name of pool 16.
pub const MSOL_SOL_ORCA_NAME: &'static str = "mSOL_SOL_ORCA";

/// Number of the pool of `mSOL_SOL_ORCA`.
pub const MSOL_SOL_ORCA_POOL_ID: u8 = 16;

/// Mint of `mSOL_SOL_ORCA`: `29cdoMgu6MS2VXpcMo1sqRdWEzdUR9tjvoh8fcK8Z87R`.
pub const MSOL_SOL_ORCA_ID: [u8; 32] = [
    17, 16, 160, 27, 176, 108, 134, 40, 167, 73, 237, 100, 80, 20, 168, 192,
    33, 236, 220, 185, 169, 250, 55, 112, 228, 213, 241, 91, 111, 127, 99, 224,
];

/// The program's state in the farm of `mSOL_SOL_ORCA`:
/// `AuiCj6vtkhctyfbvFHqcr5oLifGLZz77QVLUt5iVjXWm`.
pub const MSOL_SOL_ORCA_USER_FARM_STATE_ID: [u8; 32] = [
    147, 57, 248, 203, 75, 0, 131, 179, 103, 29, 214, 163, 82, 123, 85, 179,
    106, 168, 107, 172, 16, 165, 167, 205, 136, 176, 155, 54, 133, 171, 161, 102,
];

/// The account that receives the ORCA rewards of the farm of `mSOL_SOL_ORCA`:
/// `CA59mFikUhJYLesKAxx8j8unHrxTfXSEPjzoXFyrG9M1`.
pub const MSOL_SOL_ORCA_REWARD_ORCA_ACCOUNT_ID: [u8; 32] = [
    165, 195, 122, 36, 130, 230, 105, 196, 153, 1, 81, 62, 221, 41, 204, 92,
    235, 88, 254, 128, 140, 196, 37, 124, 250, 105, 62, 35, 251, 141, 99, 144,
];

/// The program's state in the second farm of `mSOL_SOL_ORCA`:
/// `ERvjyaHCL57xhd1zwaEb9agpYgoQarL19SRqcmhSto7Q`.
pub const MSOL_SOL_ORCA_USER_FARM_STATE_2ND_ID: [u8; 32] = [
    199, 138, 162, 114, 5, 53, 191, 201, 232, 194, 30, 22, 42, 184, 52, 202,
    217, 120, 191, 103, 135, 21, 127, 126, 130, 165, 59, 153, 7, 73, 225, 243,
];

/// The account that receives the rewards of the second farm of `mSOL_SOL_ORCA`:
/// `5U5uowAVYyggB6DvVZE12cLZE7EjxkdKGt8VpvbsNbAy`.
pub const MSOL_SOL_ORCA_REWARD_DD_ACCOUNT_2ND_ID: [u8; 32] = [
    66, 94, 251, 92, 32, 25, 27, 120, 57, 248, 53, 239, 47, 228, 133, 96,
    37, 178, 84, 35, 1, 94, 119, 196, 149, 249, 56, 40, 135, 174, 65, 114,
];

/// The account that holds the liquidity tokens between the two farms of `mSOL_SOL_ORCA`:
/// `5QpEXnCWMyUHNwE1jFUZq4gzNzmke9XJ2qCZjeBvMqz3`.
pub const MSOL_SOL_ORCA_FLOATING_LP_2ND_ID: [u8; 32] = [
    65, 136, 131, 94, 160, 30, 155, 143, 94, 70, 76, 72, 79, 151, 94, 88,
    255, 92, 65, 127, 101, 40, 153, 207, 166, 23, 0, 99, 194, 83, 17, 156,
];

/// Token name of pool 17.
pub const ORCA_USDC_ORCA_NAME: &'static str = "ORCA_USDC_ORCA";

/// Number of the pool of `ORCA_USDC_ORCA`.
pub const ORCA_USDC_ORCA_POOL_ID: u8 = 17;

/// Mint of `ORCA_USDC_ORCA`: `n8Mpu28RjeYD7oUX3LG1tPxzhRZh3YYLRSHcHRdS3Zx`.
pub const ORCA_USDC_ORCA_ID: [u8; 32] = [
    11, 143, 117, 19, 155, 183, 119, 94, 211, 201, 96, 224, 104, 190, 138, 58,
    11, 4, 84, 222, 27, 233, 168, 66, 88, 64, 79, 200, 204, 180, 194, 103,
];

/// The program's state in the farm of `ORCA_USDC_ORCA`:
/// `3DmAD81qp5ZtxFUjtcrubuRrzCsJSDXHbR1P5VPeVuyz`.
pub const ORCA_USDC_ORCA_USER_FARM_STATE_ID: [u8; 32] = [
    32, 252, 70, 40, 7, 121, 188, 100, 138, 70, 21, 157, 46, 45, 29, 83,
    198, 213, 61, 67, 143, 88, 112, 72, 238, 130, 43, 212, 160, 137, 82, 169,
];

/// The account that receives the ORCA rewards of the farm of `ORCA_USDC_ORCA`:
/// `G8cPgn6tiQQAQcTQupEi8fTBfo1RpqTii1hW65L4poTY`.
pub const ORCA_USDC_ORCA_REWARD_ORCA_ACCOUNT_ID: [u8; 32] = [
    224, 210, 98, 237, 230, 52, 187, 26, 250, 3, 33, 23, 69, 136, 139, 239,
    199, 114, 7, 50, 241, 212, 66, 230, 183, 73, 211, 124, 70, 159, 68, 99,
];

/// Token name of pool 18.
pub const ORCA_SOL_ORCA_NAME: &'static str = "ORCA_SOL_ORCA";

/// Number of the pool of `ORCA_SOL_ORCA`.
pub const ORCA_SOL_ORCA_POOL_ID: u8 = 18;

/// Mint of `ORCA_SOL_ORCA`: `2uVjAuRXavpM6h1scGQaxqb6HVaNRn6T2X7HHXTabz25`.
pub const ORCA_SOL_ORCA_ID: [u8; 32] = [
    28, 78, 94, 237, 160, 232, 139, 114, 167, 59, 33, 30, 187, 146, 83, 105,
    11, 59, 247, 196, 113, 241, 8, 36, 161, 114, 172, 24, 59, 146, 87, 98,
];

/// The program's state in the farm of `ORCA_SOL_ORCA`:
/// `3dAg8zU3VLcE3vfpxsxbnfbKoUfg6G4kGcETxkiQ4oKr`.
pub const ORCA_SOL_ORCA_USER_FARM_STATE_ID: [u8; 32] = [
    38, 251, 56, 232, 140, 95, 1, 53, 65, 196, 153, 112, 100, 185, 56, 210,
    54, 119, 94, 241, 241, 69, 251, 205, 187, 15, 103, 37, 173, 178, 160, 133,
];

/// The account that receives the ORCA rewards of the farm of `ORCA_SOL_ORCA`:
/// `2G7ZWG9z6WtKJ5k5B32RTmLFB7hLVEnC5RmYD7gvCpG3`.
pub const ORCA_SOL_ORCA_REWARD_ORCA_ACCOUNT_ID: [u8; 32] = [
    18, 186, 209, 36, 4, 184, 208, 14, 171, 131, 228, 69, 61, 56, 186, 241,
    188, 81, 166, 3, 118, 86, 207, 149, 177, 56, 23, 33, 114, 160, 150, 236,
];

/// Token name of pool 19.
pub const ETH_USDC_ORCA_NAME: &'static str = "ETH_USDC_ORCA";

/// Number of the pool of `ETH_USDC_ORCA`.
pub const ETH_USDC_ORCA_POOL_ID: u8 = 19;

/// Mint of `ETH_USDC_ORCA`: `3e1W6Aqcbuk2DfHUwRiRcyzpyYRRjg6yhZZcyEARydUX`.
pub const ETH_USDC_ORCA_ID: [u8; 32] = [
    39, 50, 110, 78, 3, 115, 140, 66, 221, 205, 235, 26, 163, 200, 185, 50,
    101, 59, 114, 224, 27, 27, 199, 198, 113, 69, 125, 22, 52, 217, 84, 108,
];

/// The program's state in the farm of `ETH_USDC_ORCA`:
/// `jkLcyt7rqAaioqKgG3UYzP56XigyqojaJNLzvd8s7GR`.
pub const ETH_USDC_ORCA_USER_FARM_STATE_ID: [u8; 32] = [
    10, 243, 101, 144, 72, 202, 86, 218, 9, 195, 70, 122, 65, 202, 94, 99,
    191, 89, 86, 153, 145, 32, 86, 55, 41, 127, 31, 90, 41, 159, 182, 214,
];

/// The account that receives the ORCA rewards of the farm of `ETH_USDC_ORCA`:
/// `CtVJtQHSAcSQ3b4FD3A3Zk8vb2PaC4wn1oTnHtUMS8rf`.
pub const ETH_USDC_ORCA_REWARD_ORCA_ACCOUNT_ID: [u8; 32] = [
    176, 161, 47, 147, 116, 189, 123, 96, 58, 182, 205, 160, 3, 24, 202, 44,
    251, 78, 215, 94, 195, 223, 56, 12, 197, 204, 17, 148, 172, 38, 66, 4,
];

/// Token name of pool 20.
pub const SOL_USDT_ORCA_NAME: &'static str = "SOL_USDT_ORCA";

/// Number of the pool of `SOL_USDT_ORCA`.
pub const SOL_USDT_ORCA_POOL_ID: u8 = 20;

/// Mint of `SOL_USDT_ORCA`: `FZthQCuYHhcfiDma7QrX7buDHwrZEd7vL8SjS6LQa3Tx`.
pub const SOL_USDT_ORCA_ID: [u8; 32] = [
    216, 112, 168, 5, 204, 175, 237, 125, 245, 160, 229, 42, 240, 204, 101, 197,
    114, 17, 24, 161, 232, 91, 70, 148, 218, 212, 254, 123, 252, 201, 164, 155,
];

/// The program's state in the farm of `SOL_USDT_ORCA`:
/// `AUZaXYcFbpsgpGXhMdQ6hHr5fb9H6RkevrNxidd4Qmsa`.
pub const SOL_USDT_ORCA_USER_FARM_STATE_ID: [u8; 32] = [
    140, 200, 179, 70, 147, 81, 175, 20, 103, 232, 125, 14, 33, 180, 14, 193,
    208, 171, 205, 160, 113, 104, 147, 158, 40, 129, 240, 157, 54, 42, 253, 109,
];

/// The account that receives the ORCA rewards of the farm of `SOL_USDT_ORCA`:
/// `9AfsnfPwRrJLjcCAasUcaYeVunpmxgev6yCVa6HiLkp7`.
pub const SOL_USDT_ORCA_REWARD_ORCA_ACCOUNT_ID: [u8; 32] = [
    121, 87, 173, 245, 36, 66, 149, 110, 228, 140, 78, 195, 17, 181, 34, 201,
    169, 161, 247, 255, 53, 103, 98, 103, 140, 184, 26, 35, 239, 10, 206, 0,
];

/// Token name of pool 23.
pub const ETH_SOL_ORCA_NAME: &'static str = "ETH_SOL_ORCA";

/// Number of the pool of `ETH_SOL_ORCA`.
pub const ETH_SOL_ORCA_POOL_ID: u8 = 23;

/// Mint of `ETH_SOL_ORCA`: `71FymgN2ZUf7VvVTLE8jYEnjP3jSK1Frp2XT1nHs8Hob`.
pub const ETH_SOL_ORCA_ID: [u8; 32] = [
    89, 55, 14, 226, 63, 13, 4, 62, 238, 135, 97, 47, 27, 60, 42, 4,
    14, 19, 245, 76, 232, 59, 250, 84, 198, 214, 233, 85, 142, 241, 6, 70,
];

/// The program's state in the farm of `ETH_SOL_ORCA`:
/// `iZQwU7EYQiMz43WUmh3hGoFaeMcnP7BbgPZ3dSh7Ntn`.
pub const ETH_SOL_ORCA_USER_FARM_STATE_ID: [u8; 32] = [
    10, 165, 118, 94, 93, 126, 148, 253, 11, 42, 233, 133, 160, 246, 5, 11,
    93, 24, 168, 2, 157, 203, 143, 71, 88, 46, 170, 76, 247, 74, 65, 191,
];

/// The account that receives the ORCA rewards of the farm of `ETH_SOL_ORCA`:
/// `2NYnAKhCwCMoe5unHuaEQEYL1ugLypK8Hrx4Qp5ugSUf`.
pub const ETH_SOL_ORCA_REWARD_ORCA_ACCOUNT_ID: [u8; 32] = [
    20, 96, 208, 238, 8, 188, 40, 119, 64, 193, 85, 86, 201, 158, 207, 73,
    28, 148, 178, 83, 44, 229, 236, 226, 209, 9, 37, 59, 2, 242, 44, 224,
];

/// Token name of pool 28.
pub const APT_USDC_ORCA_NAME: &'static str = "APT_USDC_ORCA";

/// Number of the pool of `APT_USDC_ORCA`.
pub const APT_USDC_ORCA_POOL_ID: u8 = 28;

/// Mint of `APT_USDC_ORCA`: `HNrYngS1eoqkjWro9D3Y5Z9sWBDzPNK2tX4rfV2Up177`.
pub const APT_USDC_ORCA_ID: [u8; 32] = [
    243, 84, 54, 68, 154, 28, 241, 151, 177, 121, 200, 52, 69, 243, 75, 47,
    203, 35, 223, 186, 110, 9, 231, 151, 93, 29, 1, 103, 253, 194, 226, 10,
];

/// The program's state in the farm of `APT_USDC_ORCA`:
/// `3kyc7Pot3qzCb3esLEnjJiG2tu99pD6V3oWJrQLwc2P7`.
pub const APT_USDC_ORCA_USER_FARM_STATE_ID: [u8; 32] = [
    40, 251, 90, 62, 105, 105, 184, 87, 190, 162, 80, 55, 97, 40, 105, 99,
    252, 83, 160, 108, 17, 212, 232, 43, 110, 3, 243, 216, 6, 6, 127, 30,
];

/// The account that receives the ORCA rewards of the farm of `APT_USDC_ORCA`:
/// `EgFva9mEFCV31AkhoZb6rN6zvbNGE1xdaRYAkKTtdNjN`.
pub const APT_USDC_ORCA_REWARD_ORCA_ACCOUNT_ID: [u8; 32] = [
    203, 54, 116, 176, 138, 249, 15, 145, 79, 54, 40, 101, 48, 76, 0, 18,
    214, 51, 197, 76, 188, 101, 99, 29, 165, 190, 190, 13, 171, 80, 162, 157,
];

/// Token name of pool 24.
pub const BTC_MSOL_ORCA_NAME: &'static str = "BTC_mSOL_ORCA";

/// Number of the pool of `BTC_mSOL_ORCA`.
pub const BTC_MSOL_ORCA_POOL_ID: u8 = 24;

/// Mint of `BTC_mSOL_ORCA`: `8nKJ4z9FSw6wrVZKASqBiS9DS1CiNsRnqwCCKVQjqdkB`.
pub const BTC_MSOL_ORCA_ID: [u8; 32] = [
    115, 157, 161, 92, 5, 8, 112, 240, 81, 62, 0, 69, 103, 121, 212, 234,
    7, 163, 43, 114, 144, 86, 106, 159, 203, 244, 20, 230, 19, 94, 61, 88,
];

/// The program's state in the farm of `BTC_mSOL_ORCA`:
/// `7cf9RpGCZSzQCrytoqysoQjN7w2tpeX86MmLBv6cAyrp`.
pub const BTC_MSOL_ORCA_USER_FARM_STATE_ID: [u8; 32] = [
    98, 72, 148, 182, 175, 215, 11, 53, 97, 179, 252, 172, 142, 114, 230, 135,
    2, 229, 92, 186, 153, 192, 177, 138, 41, 142, 242, 175, 243, 189, 115, 33,
];

/// The account that receives the ORCA rewards of the farm of `BTC_mSOL_ORCA`:
/// `7Sfy525w1dpCQqXb2sEKuacV57333VCSCKGuubsxXvCc`.
pub const BTC_MSOL_ORCA_REWARD_ORCA_ACCOUNT_ID: [u8; 32] = [
    95, 185, 179, 155, 45, 61, 51, 95, 11, 20, 118, 64, 2, 176, 6, 42,
    74, 99, 41, 63, 15, 244, 221, 108, 145, 255, 208, 140, 25, 25, 243, 245,
];

/// The program's state in the second farm of `BTC_mSOL_ORCA`:
/// `3JjHmB43qTuHHhGxejdThZBcHGQugs2L62eeM9M3Kmig`.
pub const BTC_MSOL_ORCA_USER_FARM_STATE_2ND_ID: [u8; 32] = [
    34, 66, 16, 93, 84, 103, 108, 97, 202, 25, 238, 178, 224, 94, 184, 175,
    11, 40, 50, 86, 207, 16, 252, 169, 115, 80, 9, 160, 13, 98, 20, 17,
];

/// The account that receives the rewards of the second farm of `BTC_mSOL_ORCA`:
/// `AoeNmMDdDBS7xyvXjtG79pCa8Duf4qFALs4KY49okdx2`.
pub const BTC_MSOL_ORCA_REWARD_DD_ACCOUNT_2ND_ID: [u8; 32] = [
    145, 172, 40, 238, 91, 251, 48, 21, 143, 208, 114, 253, 109, 229, 103, 40,
    65, 65, 209, 4, 163, 3, 202, 233, 135, 16, 94, 160, 81, 228, 88, 95,
];

/// The account that holds the liquidity tokens between the two farms of `BTC_mSOL_ORCA`:
/// `ESCvrGSqm2ykHBetb7bXAY8j1zWFLCSMeoFwYAQeJ3u3`.
pub const BTC_MSOL_ORCA_FLOATING_LP_2ND_ID: [u8; 32] = [
    199, 156, 240, 19, 128, 208, 149, 234, 198, 210, 109, 109, 126, 37, 1, 254,
    254, 106, 242, 98, 52, 36, 180, 155, 2, 246, 90, 65, 32, 160, 151, 42,
];

/// Token name of pool 25.
pub const MSOL_USDC_ORCA_NAME: &'static str = "mSOL_USDC_ORCA";

/// Number of the pool of `mSOL_USDC_ORCA`.
pub const MSOL_USDC_ORCA_POOL_ID: u8 = 25;

/// Mint of `mSOL_USDC_ORCA`: `8PSfyiTVwPb6Rr2iZ8F3kNpbg65BCfJM9v8LfB916r44`.
pub const MSOL_USDC_ORCA_ID: [u8; 32] = [
    109, 193, 157, 30, 65, 254, 28, 7, 153, 202, 77, 233, 52, 205, 87, 4,
    34, 171, 14, 184, 110, 229, 96, 98, 143, 123, 171, 63, 103, 237, 62, 221,
];

/// The program's state in the farm of `mSOL_USDC_ORCA`:
/// `DuHRmA6Dc9L9TsoxcfYFuuu4Gt9U89ogv61ewbhhbKRP`.
pub const MSOL_USDC_ORCA_USER_FARM_STATE_ID: [u8; 32] = [
    191, 177, 4, 232, 0, 109, 130, 225, 11, 77, 95, 218, 168, 16, 226, 153,
    2, 213, 205, 214, 218, 106, 36, 113, 102, 15, 163, 73, 194, 62, 19, 94,
];

/// The account that receives the ORCA rewards of the farm of `mSOL_USDC_ORCA`:
/// `B16JMAgpR84Dr6rucq4GYLZV7pdk1uPF533P9KVwNUq4`.
pub const MSOL_USDC_ORCA_REWARD_ORCA_ACCOUNT_ID: [u8; 32] = [
    148, 154, 220, 104, 189, 18, 26, 224, 130, 18, 84, 53, 39, 4, 214, 91,
    70, 77, 21, 70, 83, 121, 237, 119, 131, 69, 218, 193, 124, 131, 168, 87,
];

/// The program's state in the second farm of `mSOL_USDC_ORCA`:
/// `CUJorkzjpvZnm7ynSaxuwtK2MJk21ReFDSF4uNc3xrsc`.
pub const MSOL_USDC_ORCA_USER_FARM_STATE_2ND_ID: [u8; 32] = [
    170, 111, 95, 156, 197, 123, 83, 150, 195, 53, 28, 106, 32, 139, 37, 161,
    163, 249, 131, 83, 164, 181, 200, 28, 161, 37, 11, 159, 224, 111, 53, 51,
];

/// The account that receives the rewards of the second farm of `mSOL_USDC_ORCA`:
/// `3QaNhP4vT6PG3eoQwg2DRbH9ecmy7pR2f1PBPWCwDBYd`.
pub const MSOL_USDC_ORCA_REWARD_DD_ACCOUNT_2ND_ID: [u8; 32] = [
    35, 193, 119, 249, 42, 70, 211, 60, 238, 233, 70, 205, 186, 154, 48, 155,
    251, 195, 17, 52, 211, 191, 4, 115, 86, 201, 247, 94, 187, 128, 149, 242,
];

/// The account that holds the liquidity tokens between the two farms of `mSOL_USDC_ORCA`:
/// `FUBad9ZBZmegSugRt7qY4uM1yRxzhBRpywwkn4mRQAeQ`.
pub const MSOL_USDC_ORCA_FLOATING_LP_2ND_ID: [u8; 32] = [
    214, 250, 66, 230, 154, 88, 160, 116, 36, 41, 206, 137, 74, 141, 143, 52,
    9, 67, 248, 121, 206, 109, 106, 90, 82, 217, 204, 109, 115, 155, 99, 149,
];

/// Token name of pool 38.
pub const STSOL_UST_ORCA_NAME: &'static str = "stSOL_UST_ORCA";

/// Number of the pool of `stSOL_UST_ORCA`.
pub const STSOL_UST_ORCA_POOL_ID: u8 = 38;

/// Mint of `stSOL_UST_ORCA`: `HTZd53fYwYQRyAjiaPsZy9Gf41gobFdqkF4oKe3XLi95`.
pub const STSOL_UST_ORCA_ID: [u8; 32] = [
    244, 136, 250, 64, 164, 219, 9, 234, 136, 42, 60, 229, 222, 98, 84, 244,
    201, 122, 85, 3, 63, 211, 58, 52, 36, 19, 151, 168, 168, 171, 240, 240,
];

/// The program's state in the farm of `stSOL_UST_ORCA`:
/// `73q4YJSXm38cqDbcYL467fr7bGZxViVt9MuRNF14GFpi`.
pub const STSOL_UST_ORCA_USER_FARM_STATE_ID: [u8; 32] = [
    89, 223, 160, 62, 145, 105, 51, 14, 24, 145, 99, 33, 213, 126, 179, 132,
    171, 14, 7, 175, 35, 89, 231, 108, 12, 5, 32, 133, 242, 28, 102, 79,
];

/// The account that receives the ORCA rewards of the farm of `stSOL_UST_ORCA`:
/// `6P4frmXufUBsT2s39zbQ5k5UDrzSpFcNKmZAgWZLHgMv`.
pub const STSOL_UST_ORCA_REWARD_ORCA_ACCOUNT_ID: [u8; 32] = [
    79, 241, 92, 177, 2, 32, 229, 105, 250, 162, 96, 206, 203, 112, 162, 140,
    223, 160, 109, 63, 49, 170, 97, 197, 193, 227, 169, 181, 3, 242, 155, 169,
];

/// Token name of pool 39.
pub const ORCA_WHETH_ORCA_NAME: &'static str = "ORCA_whETH_ORCA";

/// Number of the pool of `ORCA_whETH_ORCA`.
pub const ORCA_WHETH_ORCA_POOL_ID: u8 = 39;

/// Mint of `ORCA_whETH_ORCA`: `GsfyYHkSgC3Ta6aWR9MjB2sxoBrkGGeR2tAwXbpphf3`.
pub const ORCA_WHETH_ORCA_ID: [u8; 32] = [
    4, 17, 1, 211, 4, 236, 243, 159, 194, 238, 42, 108, 183, 128, 128, 130,
    137, 249, 205, 24, 156, 138, 107, 176, 65, 121, 18, 86, 158, 58, 166, 70,
];

/// The program's state in the farm of `ORCA_whETH_ORCA`:
/// `8xzKDQKm6N9ERkkx8J8azT3icsA1skfkuhxLfSdVvEcB`.
pub const ORCA_WHETH_ORCA_USER_FARM_STATE_ID: [u8; 32] = [
    118, 89, 142, 227, 241, 249, 41, 221, 189, 133, 105, 116, 158, 10, 224, 70,
    239, 243, 210, 101, 102, 223, 44, 22, 113, 72, 1, 118, 145, 43, 25, 148,
];

/// The account that receives the ORCA rewards of the farm of `ORCA_whETH_ORCA`:
/// `9jJVuB2UhzcGED6h476kieHwTVPmhY7EJsQyud38Q4r1`.
pub const ORCA_WHETH_ORCA_REWARD_ORCA_ACCOUNT_ID: [u8; 32] = [
    129, 179, 172, 188, 46, 197, 132, 11, 98, 225, 161, 206, 11, 162, 83, 149,
    174, 240, 131, 246, 209, 48, 212, 2, 141, 103, 179, 11, 108, 81, 3, 206,
];

/// Token name of pool 9.
pub const SOL_USDC_RAYDIUM_NAME: &'static str = "SOL_USDC_RAYDIUM";

/// Number of the pool of `SOL_USDC_RAYDIUM`.
pub const SOL_USDC_RAYDIUM_POOL_ID: u8 = 9;

/// Mint of `SOL_USDC_RAYDIUM`: `8HoQnePLqPj4M7PUDzfw8e3Ymdwgc7NLGnaTUapubyvu`.
pub const SOL_USDC_RAYDIUM_ID: [u8; 32] = [
    108, 79, 147, 216, 88, 232, 143, 250, 254, 160, 140, 67, 103, 68, 151, 232,
    230, 169, 50, 192, 200, 49, 72, 38, 42, 26, 227, 204, 199, 130, 158, 198,
];

/// The account that receives the RAY rewards of the farm of `SOL_USDC_RAYDIUM`:
/// `44tSF4Sisrsy7YXmtSYnFLzQnZeVvwgd5PTMzRvAqtq4`.
pub const SOL_USDC_RAYDIUM_REWARD_RAY_ACCOUNT_ID: [u8; 32] = [
    45, 145, 246, 16, 106, 117, 118, 109, 79, 9, 255, 109, 16, 76, 60, 35,
    123, 136, 148, 87, 230, 211, 255, 112, 176, 172, 232, 81, 230, 102, 156, 191,
];

/// The account that receives the second reward of the farm of `SOL_USDC_RAYDIUM`:
/// `BzqrcDc7wpciqtsSj7MsDajDdjHuS7XBdqaprSm8GaiB`.
pub const SOL_USDC_RAYDIUM_REWARD_SECOND_ACCOUNT_ID: [u8; 32] = [
    163, 102, 55, 91, 139, 212, 77, 153, 199, 124, 1, 223, 7, 214, 67, 152,
    46, 76, 21, 200, 174, 119, 132, 65, 238, 80, 211, 35, 236, 53, 190, 0,
];

/// The program's ledger in the farm of `SOL_USDC_RAYDIUM`:
/// `4vbQX6ycybRe6KMeb6VT9pEpG1284QvTrZv2ph3Yh2Nd`.
pub const SOL_USDC_RAYDIUM_USER_LEDGER_ACCOUNT_ID: [u8; 32] = [
    58, 77, 190, 255, 79, 241, 107, 167, 131, 71, 209, 199, 142, 219, 119, 57,
    105, 230, 144, 192, 103, 190, 187, 114, 58, 28, 220, 44, 109, 180, 218, 250,
];

/// Token name of pool 10.
pub const RAY_USDC_RAYDIUM_NAME: &'static str = "RAY_USDC_RAYDIUM";

/// Number of the pool of `RAY_USDC_RAYDIUM`.
pub const RAY_USDC_RAYDIUM_POOL_ID: u8 = 10;

/// Mint of `RAY_USDC_RAYDIUM`: `FbC6K13MzHvN42bXrtGaWsvZY9fxrackRSZcBGfjPc7m`.
pub const RAY_USDC_RAYDIUM_ID: [u8; 32] = [
    216, 197, 231, 222, 180, 127, 119, 132, 141, 136, 235, 142, 124, 188, 90, 99,
    230, 148, 221, 22, 169, 162, 209, 178, 101, 242, 100, 210, 73, 58, 229, 4,
];

/// The account that receives the RAY rewards of the farm of `RAY_USDC_RAYDIUM`:
/// `49i8NSa6z2DcWxBnnsZjyxKvLxEqXGZ833B4jUDNmxnT`.
pub const RAY_USDC_RAYDIUM_REWARD_RAY_ACCOUNT_ID: [u8; 32] = [
    46, 206, 53, 179, 130, 167, 228, 16, 81, 249, 106, 229, 102, 160, 62, 95,
    38, 77, 109, 237, 127, 241, 16, 212, 110, 2, 122, 88, 172, 47, 2, 120,
];

/// The account that receives the second reward of the farm of `RAY_USDC_RAYDIUM`:
/// `11111111111111111111111111111111`.
pub const RAY_USDC_RAYDIUM_REWARD_SECOND_ACCOUNT_ID: [u8; 32] = [
    0, 0, 0, 0, 0, 0, 0, 0, 0, 0, 0, 0, 0, 0, 0, 0,
    0, 0, 0, 0, 0, 0, 0, 0, 0, 0, 0, 0, 0, 0, 0, 0,
];

/// The program's ledger in the farm of `RAY_USDC_RAYDIUM`:
/// `FicrKCCcXaZxgLAS6hymbcaHxNNjtCUmJFofsJ1fjdxj`.
pub const RAY_USDC_RAYDIUM_USER_LEDGER_ACCOUNT_ID: [u8; 32] = [
    218, 172, 247, 84, 106, 50, 169, 171, 42, 93, 250, 250, 75, 3, 218, 74,
    105, 251, 77, 253, 27, 94, 84, 84, 130, 81, 162, 8, 253, 79, 201, 224,
];

/// Token name of pool 14.
pub const SOL_USDT_RAYDIUM_NAME: &'static str = "SOL_USDT_RAYDIUM";

/// Number of the pool of `SOL_USDT_RAYDIUM`.
pub const SOL_USDT_RAYDIUM_POOL_ID: u8 = 14;

/// Mint of `SOL_USDT_RAYDIUM`: `Epm4KfTj4DMrvqn6Bwg2Tr2N8vhQuNbuK8bESFp4k33K`.
pub const SOL_USDT_RAYDIUM_ID: [u8; 32] = [
    205, 100, 11, 53, 133, 71, 146, 203, 35, 38, 89, 220, 115, 25, 221, 196,
    10, 127, 44, 64, 14, 119, 35, 210, 119, 22, 104, 187, 213, 139, 42, 22,
];

/// The account that receives the RAY rewards of the farm of `SOL_USDT_RAYDIUM`:
/// `4aryP8pemzEuJjMteEPHFbM1SJdgoahx4AG1ZpdCvJZQ`.
pub const SOL_USDT_RAYDIUM_REWARD_RAY_ACCOUNT_ID: [u8; 32] = [
    53, 63, 187, 41, 244, 119, 81, 240, 66, 93, 147, 124, 127, 142, 108, 98,
    32, 214, 240, 243, 184, 122, 187, 180, 200, 203, 28, 189, 155, 27, 18, 243,
];

/// The account that receives the second reward of the farm of `SOL_USDT_RAYDIUM`:
/// `HBrRwtFzrL7CyngExF4N3LrKzSEf1ViFRLHJcVEwmphw`.
pub const SOL_USDT_RAYDIUM_REWARD_SECOND_ACCOUNT_ID: [u8; 32] = [
    240, 130, 176, 145, 22, 19, 145, 108, 247, 121, 14, 34, 220, 6, 127, 61,
    233, 157, 48, 11, 56, 14, 134, 107, 63, 41, 175, 158, 5, 232, 231, 194,
];

/// The program's ledger in the farm of `SOL_USDT_RAYDIUM`:
/// `C4GrteYviDR4xfMGwdGD5gzVgy3iVmTHGhV2XoiJZfLw`.
pub const SOL_USDT_RAYDIUM_USER_LEDGER_ACCOUNT_ID: [u8; 32] = [
    164, 71, 59, 85, 246, 122, 43, 246, 203, 121, 108, 116, 44, 3, 241, 130,
    80, 130, 104, 12, 220, 74, 131, 165, 71, 81, 26, 70, 160, 93, 93, 12,
];

/// Token name of pool 22.
pub const MSOL_SOL_RAYDIUM_NAME: &'static str = "mSOL_SOL_RAYDIUM";

/// Number of the pool of `mSOL_SOL_RAYDIUM`.
pub const MSOL_SOL_RAYDIUM_POOL_ID: u8 = 22;

/// Mint of `mSOL_SOL_RAYDIUM`: `5ijRoAHVgd5T5CNtK5KDRUBZ7Bffb69nktMj5n6ks6m4`.
pub const MSOL_SOL_RAYDIUM_ID: [u8; 32] = [
    70, 31, 136, 168, 134, 189, 175, 255, 63, 200, 226, 228, 137, 231, 177, 41,
    169, 138, 209, 232, 51, 226, 140, 149, 229, 111, 43, 152, 27, 48, 14, 143,
];

/// Token name of pool 31.
pub const RAY_USDT_RAYDIUM_NAME: &'static str = "RAY_USDT_RAYDIUM";

/// Number of the pool of `RAY_USDT_RAYDIUM`.
pub const RAY_USDT_RAYDIUM_POOL_ID: u8 = 31;

/// Mint of `RAY_USDT_RAYDIUM`: `C3sT1R3nsw4AVdepvLTLKr5Gvszr7jufyBWUCvy4TUvT`.
pub const RAY_USDT_RAYDIUM_ID: [u8; 32] = [
    164, 44, 194, 143, 4, 58, 249, 47, 135, 113, 192, 48, 234, 13, 137, 34,
    140, 160, 119, 136, 217, 192, 215, 1, 31, 252, 175, 208, 186, 117, 44, 232,
];

/// The account that receives the RAY rewards of the farm of `RAY_USDT_RAYDIUM`:
/// `3YUuGZJSF5Jdy3mXBXgWh86t2msj4d2WvNGawSsDZbHC`.
pub const RAY_USDT_RAYDIUM_REWARD_RAY_ACCOUNT_ID: [u8; 32] = [
    37, 199, 237, 72, 246, 208, 149, 250, 86, 223, 186, 192, 234, 1, 134, 162,
    83, 160, 135, 223, 124, 40, 67, 247, 212, 65, 75, 31, 188, 165, 227, 179,
];

/// The account that receives the second reward of the farm of `RAY_USDT_RAYDIUM`:
/// `11111111111111111111111111111111`.
pub const RAY_USDT_RAYDIUM_REWARD_SECOND_ACCOUNT_ID: [u8; 32] = [
    0, 0, 0, 0, 0, 0, 0, 0, 0, 0, 0, 0, 0, 0, 0, 0,
    0, 0, 0, 0, 0, 0, 0, 0, 0, 0, 0, 0, 0, 0, 0, 0,
];

/// The program's ledger in the farm of `RAY_USDT_RAYDIUM`:
/// `HqoBjwSWTWvSUvWAAG1ScWJDXb9ZgUJhhvcFUxKZf7Pz`.
pub const RAY_USDT_RAYDIUM_USER_LEDGER_ACCOUNT_ID: [u8; 32] = [
    250, 59, 23, 102, 71, 227, 195, 194, 129, 226, 207, 6, 97, 121, 209, 190,
    30, 136, 208, 213, 99, 125, 42, 130, 186, 178, 20, 111, 220, 234, 32, 125,
];

/// Token name of pool 32.
pub const RAY_ETH_RAYDIUM_NAME: &'static str = "RAY_ETH_RAYDIUM";

/// Number of the pool of `RAY_ETH_RAYDIUM`.
pub const RAY_ETH_RAYDIUM_POOL_ID: u8 = 32;

/// Mint of `RAY_ETH_RAYDIUM`: `mjQH33MqZv5aKAbKHi8dG3g3qXeRQqq1GFcXceZkNSr`.
pub const RAY_ETH_RAYDIUM_ID: [u8; 32] = [
    11, 117, 127, 185, 105, 30, 131, 160, 39, 83, 170, 102, 207, 154, 145, 248,
    64, 91, 79, 18, 76, 72, 3, 53, 28, 1, 56, 225, 238, 59, 193, 103,
];

/// The account that receives the RAY rewards of the farm of `RAY_ETH_RAYDIUM`:
/// `5PzDUuUYWmkymdNznZmvWAj5nn89xwFbD844rMJveHY3`.
pub const RAY_ETH_RAYDIUM_REWARD_RAY_ACCOUNT_ID: [u8; 32] = [
    65, 82, 56, 11, 178, 251, 1, 204, 118, 123, 249, 49, 192, 206, 122, 79,
    189, 80, 121, 56, 250, 255, 52, 207, 65, 226, 226, 138, 156, 1, 145, 128,
];

/// The account that receives the second reward of the farm of `RAY_ETH_RAYDIUM`:
/// `11111111111111111111111111111111`.
pub const RAY_ETH_RAYDIUM_REWARD_SECOND_ACCOUNT_ID: [u8; 32] = [
    0, 0, 0, 0, 0, 0, 0, 0, 0, 0, 0, 0, 0, 0, 0, 0,
    0, 0, 0, 0, 0, 0, 0, 0, 0, 0, 0, 0, 0, 0, 0, 0,
];

/// The program's ledger in the farm of `RAY_ETH_RAYDIUM`:
/// `BTPJFX8vWYExEAD7C9J9hpsUU8bUfcxDfc8da2pskzX1`.
pub const RAY_ETH_RAYDIUM_USER_LEDGER_ACCOUNT_ID: [u8; 32] = [
    155, 87, 46, 156, 72, 220, 8, 239, 132, 28, 206, 11, 147, 198, 49, 31,
    9, 252, 32, 215, 218, 177, 232, 170, 25, 70, 252, 170, 8, 135, 244, 200,
];

/// Token name of pool 33.
pub const RAY_SOL_RAYDIUM_NAME: &'static str = "RAY_SOL_RAYDIUM";

/// Number of the pool of `RAY_SOL_RAYDIUM`.
pub const RAY_SOL_RAYDIUM_POOL_ID: u8 = 33;

/// Mint of `RAY_SOL_RAYDIUM`: `89ZKE4aoyfLBe2RuV6jM3JGNhaV18Nxh8eNtjRcndBip`.
pub const RAY_SOL_RAYDIUM_ID: [u8; 32] = [
    106, 50, 254, 38, 57, 44, 166, 129, 44, 234, 78, 229, 187, 196, 100, 182,
    41, 65, 110, 239, 161, 144, 80, 239, 249, 9, 12, 251, 77, 199, 139, 49,
];

/// The account that receives the RAY rewards of the farm of `RAY_SOL_RAYDIUM`:
/// `ChJUMQNtVNznGWaFUeNAqKD95hd1gmz9CRHobw3aMRbm`.
pub const RAY_SOL_RAYDIUM_REWARD_RAY_ACCOUNT_ID: [u8; 32] = [
    173, 195, 139, 50, 39, 79, 66, 7, 114, 207, 247, 193, 182, 66, 206, 236,
    56, 33, 223, 139, 247, 111, 151, 8, 245, 119, 200, 196, 141, 244, 133, 48,
];

/// The account that receives the second reward of the farm of `RAY_SOL_RAYDIUM`:
/// `11111111111111111111111111111111`.
pub const RAY_SOL_RAYDIUM_REWARD_SECOND_ACCOUNT_ID: [u8; 32] = [
    0, 0, 0, 0, 0, 0, 0, 0, 0, 0, 0, 0, 0, 0, 0, 0,
    0, 0, 0, 0, 0, 0, 0, 0, 0, 0, 0, 0, 0, 0, 0, 0,
];

/// The program's ledger in the farm of `RAY_SOL_RAYDIUM`:
/// `5wGcTvJVumeXy7YBjcf1RqPwQ8GciFVvUJeCvgGmwLxp`.
pub const RAY_SOL_RAYDIUM_USER_LEDGER_ACCOUNT_ID: [u8; 32] = [
    73, 85, 195, 104, 217, 237, 114, 65, 99, 239, 93, 216, 191, 158, 102, 50,
    87, 242, 158, 158, 56, 39, 241, 11, 54, 101, 45, 149, 181, 171, 71, 33,
];

/// Token name of pool 34.
pub const SRM_USDC_RAYDIUM_NAME: &'static str = "SRM_USDC_RAYDIUM";

/// Number of the pool of `SRM_USDC_RAYDIUM`.
pub const SRM_USDC_RAYDIUM_POOL_ID: u8 = 34;

/// Mint of `SRM_USDC_RAYDIUM`: `9XnZd82j34KxNLgQfz29jGbYdxsYznTWRpvZE3SRE7JG`.
pub const SRM_USDC_RAYDIUM_ID: [u8; 32] = [
    126, 192, 111, 244, 98, 146, 233, 110, 147, 139, 251, 38, 24, 228, 18, 30,
    176, 41, 42, 84, 63, 214, 100, 32, 207, 160, 174, 9, 253, 118, 127, 233,
];

/// The account that receives the RAY rewards of the farm of `SRM_USDC_RAYDIUM`:
/// `2qgtUtNopD3ZCrQCbVsvYd1BrPeWxn4TcrXjwvTzLCYi`.
pub const SRM_USDC_RAYDIUM_REWARD_RAY_ACCOUNT_ID: [u8; 32] = [
    27, 84, 170, 180, 96, 217, 193, 31, 246, 205, 114, 162, 204, 189, 108, 187,
    160, 57, 33, 240, 167, 207, 75, 38, 137, 82, 32, 33, 128, 104, 215, 195,
];

/// The account that receives the second reward of the farm of `SRM_USDC_RAYDIUM`:
/// `2iy54EuEMgUVFMaRzxusiMSawgcHUgR34SZWaKkMosMc`.
pub const SRM_USDC_RAYDIUM_REWARD_SECOND_ACCOUNT_ID: [u8; 32] = [
    25, 155, 230, 8, 154, 69, 71, 75, 190, 194, 176, 180, 113, 92, 237, 47,
    6, 126, 222, 89, 234, 47, 216, 19, 36, 207, 235, 82, 24, 138, 20, 3,
];

/// The program's ledger in the farm of `SRM_USDC_RAYDIUM`:
/// `AMpGacKHMNbQvKXGCkCGq4tNeXokHZwvPiYSeyHS6PvG`.
pub const SRM_USDC_RAYDIUM_USER_LEDGER_ACCOUNT_ID: [u8; 32] = [
    139, 14, 62, 204, 129, 155, 74, 132, 74, 42, 204, 230, 44, 96, 44, 202,
    14, 77, 40, 21, 239, 76, 239, 132, 126, 121, 122, 204, 153, 145, 150, 1,
];

/// The number of the pool whose token has the given name, if there is one.
pub open spec fn pool_id_of_name(token_name: Seq<char>) -> Option<u8> {
    if token_name == APT_NAME@ {
        Some(APT_POOL_ID)
    } else if token_name == BTC_NAME@ {
        Some(BTC_POOL_ID)
    } else if token_name == ETH_NAME@ {
        Some(ETH_POOL_ID)
    } else if token_name == WHETH_NAME@ {
        Some(WHETH_POOL_ID)
    } else if token_name == SOL_NAME@ {
        Some(SOL_POOL_ID)
    } else if token_name == MSOL_NAME@ {
        Some(MSOL_POOL_ID)
    } else if token_name == STSOL_NAME@ {
        Some(STSOL_POOL_ID)
    } else if token_name == SCNSOL_NAME@ {
        Some(SCNSOL_POOL_ID)
    } else if token_name == RAY_NAME@ {
        Some(RAY_POOL_ID)
    } else if token_name == ORCA_NAME@ {
        Some(ORCA_POOL_ID)
    } else if token_name == SRM_NAME@ {
        Some(SRM_POOL_ID)
    } else if token_name == USDT_NAME@ {
        Some(USDT_POOL_ID)
    } else if token_name == USDC_NAME@ {
        Some(USDC_POOL_ID)
    } else if token_name == UST_NAME@ {
        Some(UST_POOL_ID)
    } else if token_name == USDT_USDC_SABER_NAME@ {
        Some(USDT_USDC_SABER_POOL_ID)
    } else if token_name == MSOL_SOL_SABER_NAME@ {
        Some(MSOL_SOL_SABER_POOL_ID)
    } else if token_name == STSOL_SOL_SABER_NAME@ {
        Some(STSOL_SOL_SABER_POOL_ID)
    } else if token_name == UST_USDC_SABER_NAME@ {
        Some(UST_USDC_SABER_POOL_ID)
    } else if token_name == USDC_USDT_ORCA_NAME@ {
        Some(USDC_USDT_ORCA_POOL_ID)
    } else if token_name == SOL_USDC_ORCA_NAME@ {
        Some(SOL_USDC_ORCA_POOL_ID)
    } else if token_name == MSOL_SOL_ORCA_NAME@ {
        Some(MSOL_SOL_ORCA_POOL_ID)
    } else if token_name == ORCA_USDC_ORCA_NAME@ {
        Some(ORCA_USDC_ORCA_POOL_ID)
    } else if token_name == ORCA_SOL_ORCA_NAME@ {
        Some(ORCA_SOL_ORCA_POOL_ID)
    } else if token_name == ETH_USDC_ORCA_NAME@ {
        Some(ETH_USDC_ORCA_POOL_ID)
    } else if token_name == SOL_USDT_ORCA_NAME@ {
        Some(SOL_USDT_ORCA_POOL_ID)
    } else if token_name == ETH_SOL_ORCA_NAME@ {
        Some(ETH_SOL_ORCA_POOL_ID)
    } else if token_name == APT_USDC_ORCA_NAME@ {
        Some(APT_USDC_ORCA_POOL_ID)
    } else if token_name == BTC_MSOL_ORCA_NAME@ {
        Some(BTC_MSOL_ORCA_POOL_ID)
    } else if token_name == MSOL_USDC_ORCA_NAME@ {
        Some(MSOL_USDC_ORCA_POOL_ID)
    } else if token_name == STSOL_UST_ORCA_NAME@ {
        Some(STSOL_UST_ORCA_POOL_ID)
    } else if token_name == ORCA_WHETH_ORCA_NAME@ {
        Some(ORCA_WHETH_ORCA_POOL_ID)
    } else if token_name == SOL_USDC_RAYDIUM_NAME@ {
        Some(SOL_USDC_RAYDIUM_POOL_ID)
    } else if token_name == RAY_USDC_RAYDIUM_NAME@ {
        Some(RAY_USDC_RAYDIUM_POOL_ID)
    } else if token_name == SOL_USDT_RAYDIUM_NAME@ {
        Some(SOL_USDT_RAYDIUM_POOL_ID)
    } else if token_name == MSOL_SOL_RAYDIUM_NAME@ {
        Some(MSOL_SOL_RAYDIUM_POOL_ID)
    } else if token_name == RAY_USDT_RAYDIUM_NAME@ {
        Some(RAY_USDT_RAYDIUM_POOL_ID)
    } else if token_name == RAY_ETH_RAYDIUM_NAME@ {
        Some(RAY_ETH_RAYDIUM_POOL_ID)
    } else if token_name == RAY_SOL_RAYDIUM_NAME@ {
        Some(RAY_SOL_RAYDIUM_POOL_ID)
    } else if token_name == SRM_USDC_RAYDIUM_NAME@ {
        Some(SRM_USDC_RAYDIUM_POOL_ID)
    } else {
        None
    }
}

/// The mint of the token of the pool with the given number, if there is one.
pub open spec fn mint_of_pool(pool_id: u8) -> Option<Seq<u8>> {
    if pool_id == APT_POOL_ID {
        Some(APT_ID@)
    } else if pool_id == BTC_POOL_ID {
        Some(BTC_ID@)
    } else if pool_id == ETH_POOL_ID {
        Some(ETH_ID@)
    } else if pool_id == WHETH_POOL_ID {
        Some(WHETH_ID@)
    } else if pool_id == SOL_POOL_ID {
        Some(SOL_ID@)
    } else if pool_id == MSOL_POOL_ID {
        Some(MSOL_ID@)
    } else if pool_id == STSOL_POOL_ID {
        Some(STSOL_ID@)
    } else if pool_id == SCNSOL_POOL_ID {
        Some(SCNSOL_ID@)
    } else if pool_id == RAY_POOL_ID {
        Some(RAY_ID@)
    } else if pool_id == ORCA_POOL_ID {
        Some(ORCA_ID@)
    } else if pool_id == SRM_POOL_ID {
        Some(SRM_ID@)
    } else if pool_id == USDT_POOL_ID {
        Some(USDT_ID@)
    } else if pool_id == USDC_POOL_ID {
        Some(USDC_ID@)
    } else if pool_id == UST_POOL_ID {
        Some(UST_ID@)
    } else if pool_id == USDT_USDC_SABER_POOL_ID {
        Some(USDT_USDC_SABER_ID@)
    } else if pool_id == MSOL_SOL_SABER_POOL_ID {
        Some(MSOL_SOL_SABER_ID@)
    } else if pool_id == STSOL_SOL_SABER_POOL_ID {
        Some(STSOL_SOL_SABER_ID@)
    } else if pool_id == UST_USDC_SABER_POOL_ID {
        Some(UST_USDC_SABER_ID@)
    } else if pool_id == USDC_USDT_ORCA_POOL_ID {
        Some(USDC_USDT_ORCA_ID@)
    } else if pool_id == SOL_USDC_ORCA_POOL_ID {
        Some(SOL_USDC_ORCA_ID@)
    } else if pool_id == MSOL_SOL_ORCA_POOL_ID {
        Some(MSOL_SOL_ORCA_ID@)
    } else if pool_id == ORCA_USDC_ORCA_POOL_ID {
        Some(ORCA_USDC_ORCA_ID@)
    } else if pool_id == ORCA_SOL_ORCA_POOL_ID {
        Some(ORCA_SOL_ORCA_ID@)
    } else if pool_id == ETH_USDC_ORCA_POOL_ID {
        Some(ETH_USDC_ORCA_ID@)
    } else if pool_id == SOL_USDT_ORCA_POOL_ID {
        Some(SOL_USDT_ORCA_ID@)
    } else if pool_id == ETH_SOL_ORCA_POOL_ID {
        Some(ETH_SOL_ORCA_ID@)
    } else if pool_id == APT_USDC_ORCA_POOL_ID {
        Some(APT_USDC_ORCA_ID@)
    } else if pool_id == BTC_MSOL_ORCA_POOL_ID {
        Some(BTC_MSOL_ORCA_ID@)
    } else if pool_id == MSOL_USDC_ORCA_POOL_ID {
        Some(MSOL_USDC_ORCA_ID@)
    } else if pool_id == STSOL_UST_ORCA_POOL_ID {
        Some(STSOL_UST_ORCA_ID@)
    } else if pool_id == ORCA_WHETH_ORCA_POOL_ID {
        Some(ORCA_WHETH_ORCA_ID@)
    } else if pool_id == SOL_USDC_RAYDIUM_POOL_ID {
        Some(SOL_USDC_RAYDIUM_ID@)
    } else if pool_id == RAY_USDC_RAYDIUM_POOL_ID {
        Some(RAY_USDC_RAYDIUM_ID@)
    } else if pool_id == SOL_USDT_RAYDIUM_POOL_ID {
        Some(SOL_USDT_RAYDIUM_ID@)
    } else if pool_id == MSOL_SOL_RAYDIUM_POOL_ID {
        Some(MSOL_SOL_RAYDIUM_ID@)
    } else if pool_id == RAY_USDT_RAYDIUM_POOL_ID {
        Some(RAY_USDT_RAYDIUM_ID@)
    } else if pool_id == RAY_ETH_RAYDIUM_POOL_ID {
        Some(RAY_ETH_RAYDIUM_ID@)
    } else if pool_id == RAY_SOL_RAYDIUM_POOL_ID {
        Some(RAY_SOL_RAYDIUM_ID@)
    } else if pool_id == SRM_USDC_RAYDIUM_POOL_ID {
        Some(SRM_USDC_RAYDIUM_ID@)
    } else {
        None
    }
}

/// Every pool that has a name has a mint.
pub proof fn lemma_named_pool_has_mint(token_name: Seq<char>)
    ensures
        pool_id_of_name(token_name) matches Some(pool_id) ==> mint_of_pool(pool_id) is Some,
{
}

/// Whether two texts are the same.
fn same_text(a: &str, b: &str) -> (same: bool)
    ensures
        same == (a@ == b@),
{
    let x = a.as_bytes();
    let y = b.as_bytes();
    proof {
        encode_utf8_decode_utf8(a@);
        encode_utf8_decode_utf8(b@);
    }
    if x.len() != y.len() {
        return false;
    }
    let mut i: usize = 0;
    while i < x.len()
        invariant
            i <= x@.len() == y@.len(),
            x@ == encode_utf8(a@),
            y@ == encode_utf8(b@),
            forall|j: int| 0 <= j < i ==> x@[j] == y@[j],
        decreases x@.len() - i,
    {
        if x[i] != y[i] {
            return false;
        }
        i = i + 1;
    }
    assert(x@ =~= y@);
    true
}

/// The number of the pool whose token is called `token_name`.
///
/// Fails with `UnknownToken` exactly when the catalogue holds no pool of that
/// name.
pub fn get_pool_id_by_name(token_name: &str) -> (found: Result<u8, ApricotError>)
    ensures
        match pool_id_of_name(token_name@) {
            Some(pool_id) => found matches Ok(id) && id == pool_id,
            None => found matches Err(e) && e == ApricotError::UnknownToken,
        },
{
    if same_text(token_name, APT_NAME) {
        return Ok(APT_POOL_ID);
    }
    if same_text(token_name, BTC_NAME) {
        return Ok(BTC_POOL_ID);
    }
    if same_text(token_name, ETH_NAME) {
        return Ok(ETH_POOL_ID);
    }
    if same_text(token_name, WHETH_NAME) {
        return Ok(WHETH_POOL_ID);
    }
    if same_text(token_name, SOL_NAME) {
        return Ok(SOL_POOL_ID);
    }
    if same_text(token_name, MSOL_NAME) {
        return Ok(MSOL_POOL_ID);
    }
    if same_text(token_name, STSOL_NAME) {
        return Ok(STSOL_POOL_ID);
    }
    if same_text(token_name, SCNSOL_NAME) {
        return Ok(SCNSOL_POOL_ID);
    }
    if same_text(token_name, RAY_NAME) {
        return Ok(RAY_POOL_ID);
    }
    if same_text(token_name, ORCA_NAME) {
        return Ok(ORCA_POOL_ID);
    }
    if same_text(token_name, SRM_NAME) {
        return Ok(SRM_POOL_ID);
    }
    if same_text(token_name, USDT_NAME) {
        return Ok(USDT_POOL_ID);
    }
    if same_text(token_name, USDC_NAME) {
        return Ok(USDC_POOL_ID);
    }
    if same_text(token_name, UST_NAME) {
        return Ok(UST_POOL_ID);
    }
    if same_text(token_name, USDT_USDC_SABER_NAME) {
        return Ok(USDT_USDC_SABER_POOL_ID);
    }
    if same_text(token_name, MSOL_SOL_SABER_NAME) {
        return Ok(MSOL_SOL_SABER_POOL_ID);
    }
    if same_text(token_name, STSOL_SOL_SABER_NAME) {
        return Ok(STSOL_SOL_SABER_POOL_ID);
    }
    if same_text(token_name, UST_USDC_SABER_NAME) {
        return Ok(UST_USDC_SABER_POOL_ID);
    }
    if same_text(token_name, USDC_USDT_ORCA_NAME) {
        return Ok(USDC_USDT_ORCA_POOL_ID);
    }
    if same_text(token_name, SOL_USDC_ORCA_NAME) {
        return Ok(SOL_USDC_ORCA_POOL_ID);
    }
    if same_text(token_name, MSOL_SOL_ORCA_NAME) {
        return Ok(MSOL_SOL_ORCA_POOL_ID);
    }
    if same_text(token_name, ORCA_USDC_ORCA_NAME) {
        return Ok(ORCA_USDC_ORCA_POOL_ID);
    }
    if same_text(token_name, ORCA_SOL_ORCA_NAME) {
        return Ok(ORCA_SOL_ORCA_POOL_ID);
    }
    if same_text(token_name, ETH_USDC_ORCA_NAME) {
        return Ok(ETH_USDC_ORCA_POOL_ID);
    }
    if same_text(token_name, SOL_USDT_ORCA_NAME) {
        return Ok(SOL_USDT_ORCA_POOL_ID);
    }
    if same_text(token_name, ETH_SOL_ORCA_NAME) {
        return Ok(ETH_SOL_ORCA_POOL_ID);
    }
    if same_text(token_name, APT_USDC_ORCA_NAME) {
        return Ok(APT_USDC_ORCA_POOL_ID);
    }
    if same_text(token_name, BTC_MSOL_ORCA_NAME) {
        return Ok(BTC_MSOL_ORCA_POOL_ID);
    }
    if same_text(token_name, MSOL_USDC_ORCA_NAME) {
        return Ok(MSOL_USDC_ORCA_POOL_ID);
    }
    if same_text(token_name, STSOL_UST_ORCA_NAME) {
        return Ok(STSOL_UST_ORCA_POOL_ID);
    }
    if same_text(token_name, ORCA_WHETH_ORCA_NAME) {
        return Ok(ORCA_WHETH_ORCA_POOL_ID);
    }
    if same_text(token_name, SOL_USDC_RAYDIUM_NAME) {
        return Ok(SOL_USDC_RAYDIUM_POOL_ID);
    }
    if same_text(token_name, RAY_USDC_RAYDIUM_NAME) {
        return Ok(RAY_USDC_RAYDIUM_POOL_ID);
    }
    if same_text(token_name, SOL_USDT_RAYDIUM_NAME) {
        return Ok(SOL_USDT_RAYDIUM_POOL_ID);
    }
    if same_text(token_name, MSOL_SOL_RAYDIUM_NAME) {
        return Ok(MSOL_SOL_RAYDIUM_POOL_ID);
    }
    if same_text(token_name, RAY_USDT_RAYDIUM_NAME) {
        return Ok(RAY_USDT_RAYDIUM_POOL_ID);
    }
    if same_text(token_name, RAY_ETH_RAYDIUM_NAME) {
        return Ok(RAY_ETH_RAYDIUM_POOL_ID);
    }
    if same_text(token_name, RAY_SOL_RAYDIUM_NAME) {
        return Ok(RAY_SOL_RAYDIUM_POOL_ID);
    }
    if same_text(token_name, SRM_USDC_RAYDIUM_NAME) {
        return Ok(SRM_USDC_RAYDIUM_POOL_ID);
    }
    Err(ApricotError::UnknownToken)
}

/// The mint of the token of pool `pool_id`.
///
/// Fails with `UnknownPool` exactly when the catalogue holds no pool of that
/// number.
pub fn get_mint_by_pool_id(pool_id: u8) -> (found: Result<Pubkey, ApricotError>)
    ensures
        match mint_of_pool(pool_id) {
            Some(mint) => found matches Ok(key) && key@ == mint,
            None => found matches Err(e) && e == ApricotError::UnknownPool,
        },
{
    if pool_id == APT_POOL_ID {
        return Ok(Pubkey::new_from_array(APT_ID));
    }
    if pool_id == BTC_POOL_ID {
        return Ok(Pubkey::new_from_array(BTC_ID));
    }
    if pool_id == ETH_POOL_ID {
        return Ok(Pubkey::new_from_array(ETH_ID));
    }
    if pool_id == WHETH_POOL_ID {
        return Ok(Pubkey::new_from_array(WHETH_ID));
    }
    if pool_id == SOL_POOL_ID {
        return Ok(Pubkey::new_from_array(SOL_ID));
    }
    if pool_id == MSOL_POOL_ID {
        return Ok(Pubkey::new_from_array(MSOL_ID));
    }
    if pool_id == STSOL_POOL_ID {
        return Ok(Pubkey::new_from_array(STSOL_ID));
    }
    if pool_id == SCNSOL_POOL_ID {
        return Ok(Pubkey::new_from_array(SCNSOL_ID));
    }
    if pool_id == RAY_POOL_ID {
        return Ok(Pubkey::new_from_array(RAY_ID));
    }
    if pool_id == ORCA_POOL_ID {
        return Ok(Pubkey::new_from_array(ORCA_ID));
    }
    if pool_id == SRM_POOL_ID {
        return Ok(Pubkey::new_from_array(SRM_ID));
    }
    if pool_id == USDT_POOL_ID {
        return Ok(Pubkey::new_from_array(USDT_ID));
    }
    if pool_id == USDC_POOL_ID {
        return Ok(Pubkey::new_from_array(USDC_ID));
    }
    if pool_id == UST_POOL_ID {
        return Ok(Pubkey::new_from_array(UST_ID));
    }
    if pool_id == USDT_USDC_SABER_POOL_ID {
        return Ok(Pubkey::new_from_array(USDT_USDC_SABER_ID));
    }
    if pool_id == MSOL_SOL_SABER_POOL_ID {
        return Ok(Pubkey::new_from_array(MSOL_SOL_SABER_ID));
    }
    if pool_id == STSOL_SOL_SABER_POOL_ID {
        return Ok(Pubkey::new_from_array(STSOL_SOL_SABER_ID));
    }
    if pool_id == UST_USDC_SABER_POOL_ID {
        return Ok(Pubkey::new_from_array(UST_USDC_SABER_ID));
    }
    if pool_id == USDC_USDT_ORCA_POOL_ID {
        return Ok(Pubkey::new_from_array(USDC_USDT_ORCA_ID));
    }
    if pool_id == SOL_USDC_ORCA_POOL_ID {
        return Ok(Pubkey::new_from_array(SOL_USDC_ORCA_ID));
    }
    if pool_id == MSOL_SOL_ORCA_POOL_ID {
        return Ok(Pubkey::new_from_array(MSOL_SOL_ORCA_ID));
    }
    if pool_id == ORCA_USDC_ORCA_POOL_ID {
        return Ok(Pubkey::new_from_array(ORCA_USDC_ORCA_ID));
    }
    if pool_id == ORCA_SOL_ORCA_POOL_ID {
        return Ok(Pubkey::new_from_array(ORCA_SOL_ORCA_ID));
    }
    if pool_id == ETH_USDC_ORCA_POOL_ID {
        return Ok(Pubkey::new_from_array(ETH_USDC_ORCA_ID));
    }
    if pool_id == SOL_USDT_ORCA_POOL_ID {
        return Ok(Pubkey::new_from_array(SOL_USDT_ORCA_ID));
    }
    if pool_id == ETH_SOL_ORCA_POOL_ID {
        return Ok(Pubkey::new_from_array(ETH_SOL_ORCA_ID));
    }
    if pool_id == APT_USDC_ORCA_POOL_ID {
        return Ok(Pubkey::new_from_array(APT_USDC_ORCA_ID));
    }
    if pool_id == BTC_MSOL_ORCA_POOL_ID {
        return Ok(Pubkey::new_from_array(BTC_MSOL_ORCA_ID));
    }
    if pool_id == MSOL_USDC_ORCA_POOL_ID {
        return Ok(Pubkey::new_from_array(MSOL_USDC_ORCA_ID));
    }
    if pool_id == STSOL_UST_ORCA_POOL_ID {
        return Ok(Pubkey::new_from_array(STSOL_UST_ORCA_ID));
    }
    if pool_id == ORCA_WHETH_ORCA_POOL_ID {
        return Ok(Pubkey::new_from_array(ORCA_WHETH_ORCA_ID));
    }
    if pool_id == SOL_USDC_RAYDIUM_POOL_ID {
        return Ok(Pubkey::new_from_array(SOL_USDC_RAYDIUM_ID));
    }
    if pool_id == RAY_USDC_RAYDIUM_POOL_ID {
        return Ok(Pubkey::new_from_array(RAY_USDC_RAYDIUM_ID));
    }
    if pool_id == SOL_USDT_RAYDIUM_POOL_ID {
        return Ok(Pubkey::new_from_array(SOL_USDT_RAYDIUM_ID));
    }
    if pool_id == MSOL_SOL_RAYDIUM_POOL_ID {
        return Ok(Pubkey::new_from_array(MSOL_SOL_RAYDIUM_ID));
    }
    if pool_id == RAY_USDT_RAYDIUM_POOL_ID {
        return Ok(Pubkey::new_from_array(RAY_USDT_RAYDIUM_ID));
    }
    if pool_id == RAY_ETH_RAYDIUM_POOL_ID {
        return Ok(Pubkey::new_from_array(RAY_ETH_RAYDIUM_ID));
    }
    if pool_id == RAY_SOL_RAYDIUM_POOL_ID {
        return Ok(Pubkey::new_from_array(RAY_SOL_RAYDIUM_ID));
    }
    if pool_id == SRM_USDC_RAYDIUM_POOL_ID {
        return Ok(Pubkey::new_from_array(SRM_USDC_RAYDIUM_ID));
    }
    Err(ApricotError::UnknownPool)
}

} // verus!

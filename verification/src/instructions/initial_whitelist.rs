//! The assets that a new registry lists from the start.

use vstd::prelude::*;
use crate::custom_accounts::legate::{TestudoTokenWhitelist, TokenListing, whitelist_unique};
use crate::pubkey::Pubkey;

verus! {

/// The identity of USD Coin (USDC).
pub const USDC_MINT: [u8; 32] = [
    198, 250, 122, 243, 190, 219, 173, 58,
    61, 101, 243, 106, 171, 201, 116, 49,
    177, 187, 228, 194, 210, 246, 224, 228,
    124, 166, 2, 3, 69, 47, 93, 97,
];

/// The identity of Tether USD (USDT).
pub const USDT_MINT: [u8; 32] = [
    206, 1, 14, 96, 175, 237, 178, 39,
    23, 189, 99, 25, 47, 84, 20, 90,
    63, 150, 90, 51, 187, 130, 210, 199,
    2, 158, 178, 206, 30, 32, 130, 100,
];

/// The identity of Chainlink (LINK).
pub const LINK_MINT: [u8; 32] = [
    170, 237, 63, 223, 248, 120, 11, 207,
    190, 164, 5, 131, 145, 247, 192, 92,
    70, 9, 31, 178, 244, 95, 162, 233,
    17, 101, 94, 3, 141, 166, 157, 155,
];

/// The identity of Uniswap (UNI).
pub const UNI_MINT: [u8; 32] = [
    181, 206, 53, 104, 16, 78, 81, 90,
    13, 156, 175, 12, 82, 176, 90, 177,
    2, 55, 4, 44, 202, 236, 196, 180,
    236, 215, 233, 220, 174, 33, 224, 224,
];

/// The identity of Aave (AAVE).
pub const AAVE_MINT: [u8; 32] = [
    43, 93, 245, 63, 10, 20, 93, 176,
    69, 35, 27, 16, 166, 51, 102, 191,
    171, 173, 180, 41, 64, 14, 10, 172,
    197, 118, 4, 143, 48, 144, 171, 133,
];

/// The identity of Official Trump (TRUMP).
pub const TRUMP_MINT: [u8; 32] = [
    246, 72, 47, 154, 114, 181, 214, 255,
    14, 197, 98, 168, 244, 99, 2, 100,
    167, 200, 187, 81, 113, 242, 142, 251,
    36, 56, 234, 96, 13, 113, 195, 58,
];

/// The identity of Render (RENDER).
pub const RENDER_MINT: [u8; 32] = [
    12, 193, 15, 81, 106, 170, 233, 193,
    75, 169, 71, 31, 96, 171, 211, 146,
    220, 215, 134, 213, 115, 84, 171, 237,
    238, 231, 40, 157, 212, 10, 10, 10,
];

/// The identity of Jupiter (JUP).
pub const JUP_MINT: [u8; 32] = [
    4, 121, 217, 199, 204, 16, 53, 222,
    114, 17, 249, 158, 180, 140, 9, 215,
    11, 43, 223, 91, 223, 158, 46, 86,
    184, 161, 251, 181, 162, 234, 51, 39,
];

/// The identity of Bonk (BONK).
pub const BONK_MINT: [u8; 32] = [
    188, 7, 197, 110, 96, 173, 61, 63,
    23, 115, 130, 234, 198, 84, 143, 186,
    31, 211, 44, 253, 144, 202, 2, 179,
    231, 207, 161, 133, 253, 206, 115, 152,
];

/// The identity of Virtuals Protocol (VIRTUAL).
pub const VIRTUAL_MINT: [u8; 32] = [
    153, 180, 19, 238, 234, 77, 10, 254,
    107, 241, 111, 54, 235, 250, 146, 92,
    116, 253, 36, 40, 110, 229, 201, 235,
    34, 171, 139, 147, 24, 14, 243, 249,
];

/// The identity of Fartcoin (FARTCOIN).
pub const FARTCOIN_MINT: [u8; 32] = [
    121, 120, 183, 20, 69, 60, 211, 232,
    122, 235, 31, 192, 155, 240, 103, 249,
    108, 210, 212, 214, 155, 87, 19, 149,
    170, 155, 241, 134, 175, 249, 218, 63,
];

/// The identity of dogwifhat (WIF).
pub const WIF_MINT: [u8; 32] = [
    197, 249, 251, 50, 244, 145, 17, 171,
    32, 195, 63, 37, 152, 252, 131, 108,
    17, 62, 41, 24, 129, 172, 33, 238,
    41, 22, 147, 148, 1, 18, 68, 228,
];

/// The identity of The Graph (GRT).
pub const GRT_MINT: [u8; 32] = [
    72, 151, 44, 62, 89, 204, 12, 122,
    9, 76, 41, 72, 248, 71, 56, 28,
    254, 244, 112, 225, 221, 240, 113, 31,
    12, 133, 128, 112, 113, 24, 118, 243,
];

/// The identity of Lido DAO (LDO).
pub const LDO_MINT: [u8; 32] = [
    246, 8, 242, 78, 184, 155, 9, 77,
    136, 179, 112, 94, 90, 111, 44, 169,
    23, 72, 60, 24, 92, 17, 131, 7,
    32, 39, 231, 121, 96, 217, 30, 33,
];

/// The identity of Raydium (RAY).
pub const RAY_MINT: [u8; 32] = [
    55, 153, 140, 203, 242, 208, 69, 139,
    97, 92, 188, 198, 177, 163, 103, 196,
    116, 158, 159, 239, 115, 6, 98, 46,
    27, 27, 88, 145, 1, 32, 188, 154,
];

/// The identity of Pyth Network (PYTH).
pub const PYTH_MINT: [u8; 32] = [
    245, 237, 236, 132, 113, 199, 86, 36,
    235, 196, 7, 154, 99, 67, 38, 217,
    106, 104, 158, 97, 87, 215, 154, 190,
    143, 90, 111, 148, 71, 40, 83, 188,
];

/// The identity of Pudgy Penguins (PENGU).
pub const PENGU_MINT: [u8; 32] = [
    29, 140, 207, 135, 172, 1, 71, 186,
    231, 86, 235, 150, 58, 46, 246, 36,
    76, 150, 145, 86, 154, 142, 192, 143,
    0, 32, 162, 235, 143, 189, 181, 161,
];

/// The identity of Helium (HNT).
pub const HNT_MINT: [u8; 32] = [
    10, 115, 32, 147, 145, 133, 97, 247,
    221, 127, 203, 236, 74, 189, 133, 19,
    222, 202, 26, 150, 127, 122, 215, 163,
    157, 99, 180, 30, 216, 147, 128, 139,
];

/// The identity of Jito (JTO).
pub const JTO_MINT: [u8; 32] = [
    10, 252, 248, 150, 139, 141, 171, 136,
    72, 30, 45, 42, 230, 137, 201, 82,
    199, 87, 174, 186, 100, 62, 57, 25,
    232, 159, 46, 85, 121, 92, 118, 193,
];

/// What the whitelist of a new registry says, in order.
pub open spec fn initial_listings() -> Seq<TokenListing> {
    seq![
        TokenListing { mint: Pubkey { bytes: USDC_MINT }, name: "USD Coin"@, symbol: "USDC"@, decimals: 6 },
        TokenListing { mint: Pubkey { bytes: USDT_MINT }, name: "Tether USD"@, symbol: "USDT"@, decimals: 6 },
        TokenListing { mint: Pubkey { bytes: LINK_MINT }, name: "Chainlink"@, symbol: "LINK"@, decimals: 6 },
        TokenListing { mint: Pubkey { bytes: UNI_MINT }, name: "Uniswap"@, symbol: "UNI"@, decimals: 6 },
        TokenListing { mint: Pubkey { bytes: AAVE_MINT }, name: "Aave"@, symbol: "AAVE"@, decimals: 6 },
        TokenListing { mint: Pubkey { bytes: TRUMP_MINT }, name: "Official Trump"@, symbol: "TRUMP"@, decimals: 6 },
        TokenListing { mint: Pubkey { bytes: RENDER_MINT }, name: "Render"@, symbol: "RENDER"@, decimals: 8 },
        TokenListing { mint: Pubkey { bytes: JUP_MINT }, name: "Jupiter"@, symbol: "JUP"@, decimals: 6 },
        TokenListing { mint: Pubkey { bytes: BONK_MINT }, name: "Bonk"@, symbol: "BONK"@, decimals: 5 },
        TokenListing { mint: Pubkey { bytes: VIRTUAL_MINT }, name: "Virtuals Protocol"@, symbol: "VIRTUAL"@, decimals: 9 },
        TokenListing { mint: Pubkey { bytes: FARTCOIN_MINT }, name: "Fartcoin"@, symbol: "FARTCOIN"@, decimals: 6 },
        TokenListing { mint: Pubkey { bytes: WIF_MINT }, name: "dogwifhat"@, symbol: "WIF"@, decimals: 6 },
        TokenListing { mint: Pubkey { bytes: GRT_MINT }, name: "The Graph"@, symbol: "GRT"@, decimals: 6 },
        TokenListing { mint: Pubkey { bytes: LDO_MINT }, name: "Lido DAO"@, symbol: "LDO"@, decimals: 8 },
        TokenListing { mint: Pubkey { bytes: RAY_MINT }, name: "Raydium"@, symbol: "RAY"@, decimals: 6 },
        TokenListing { mint: Pubkey { bytes: PYTH_MINT }, name: "Pyth Network"@, symbol: "PYTH"@, decimals: 6 },
        TokenListing { mint: Pubkey { bytes: PENGU_MINT }, name: "Pudgy Penguins"@, symbol: "PENGU"@, decimals: 6 },
        TokenListing { mint: Pubkey { bytes: HNT_MINT }, name: "Helium"@, symbol: "HNT"@, decimals: 8 },
        TokenListing { mint: Pubkey { bytes: JTO_MINT }, name: "Jito"@, symbol: "JTO"@, decimals: 9 },
    ]
}

/// One line of the whitelist.
fn listing(mint: [u8; 32], name: &str, symbol: &str, decimals: u8) -> (r: TestudoTokenWhitelist)
    ensures
        r@ == (TokenListing { mint: Pubkey { bytes: mint }, name: name@, symbol: symbol@, decimals }),
{
    TestudoTokenWhitelist {
        token_mint: Pubkey::new_from_array(mint),
        token_name: name.to_owned(),
        token_symbol: symbol.to_owned(),
        token_decimals: decimals,
    }
}

/// The whitelist of a new registry.
pub fn initial_whitelist() -> (r: Vec<TestudoTokenWhitelist>)
    ensures
        r@.map_values(|e: TestudoTokenWhitelist| e@) == initial_listings(),
        whitelist_unique(r@),
        r@.len() == 19,
{
    let mut list: Vec<TestudoTokenWhitelist> = Vec::new();
    list.push(listing(USDC_MINT, "USD Coin", "USDC", 6));
    list.push(listing(USDT_MINT, "Tether USD", "USDT", 6));
    list.push(listing(LINK_MINT, "Chainlink", "LINK", 6));
    list.push(listing(UNI_MINT, "Uniswap", "UNI", 6));
    list.push(listing(AAVE_MINT, "Aave", "AAVE", 6));
    list.push(listing(TRUMP_MINT, "Official Trump", "TRUMP", 6));
    list.push(listing(RENDER_MINT, "Render", "RENDER", 8));
    list.push(listing(JUP_MINT, "Jupiter", "JUP", 6));
    list.push(listing(BONK_MINT, "Bonk", "BONK", 5));
    list.push(listing(VIRTUAL_MINT, "Virtuals Protocol", "VIRTUAL", 9));
    list.push(listing(FARTCOIN_MINT, "Fartcoin", "FARTCOIN", 6));
    list.push(listing(WIF_MINT, "dogwifhat", "WIF", 6));
    list.push(listing(GRT_MINT, "The Graph", "GRT", 6));
    list.push(listing(LDO_MINT, "Lido DAO", "LDO", 8));
    list.push(listing(RAY_MINT, "Raydium", "RAY", 6));
    list.push(listing(PYTH_MINT, "Pyth Network", "PYTH", 6));
    list.push(listing(PENGU_MINT, "Pudgy Penguins", "PENGU", 6));
    list.push(listing(HNT_MINT, "Helium", "HNT", 8));
    list.push(listing(JTO_MINT, "Jito", "JTO", 9));
    proof {
        assert(list@.map_values(|e: TestudoTokenWhitelist| e@) =~= initial_listings());
        assert forall|i: int, j: int| 0 <= i < j < list@.len() implies list@[i].token_mint
            != list@[j].token_mint by {
            let a = list@[i]@.mint.bytes;
            let b = list@[j]@.mint.bytes;
            assert(a[0] != b[0] || a[1] != b[1]);
        }
    }
    list
}

} // verus!

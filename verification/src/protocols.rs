//! The two external venue protocols the engine can route through, each
//! replicated as its own module because their rounding and fee conventions
//! differ on purpose: `meteora_v1` is a share-based vault AMM, `raydium_v4` a
//! hybrid order-book/AMM.
pub mod meteora_v1;
pub mod raydium_v4;

//! A crafting model: a base product carries a bounded, duplicate-free set of
//! status effects; each treatment rewrites that set through an ordered list of
//! conditional-replace and add steps, and changes the product's sale price.
//! An exhaustive search enumerates every starting item and every ordered
//! treatment sequence of a fixed length, prices each outcome, and ranks the
//! results by net profit.
//!
//! All money is exact fixed-point: prices, costs and profits are `i64` values
//! in units of 1/[`product::PRICE_SCALE`] of a currency unit. That scale is the
//! least common multiple of the multiplier resolution (hundredths) and the
//! acquisition-cost amortization divisor, so every quantity the model defines
//! is represented exactly and the profit order is total.

pub mod catalog;
pub mod effects;
pub mod product;
pub mod search;

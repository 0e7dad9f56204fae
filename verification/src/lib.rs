//! Resolution variants of an encoded image.
//!
//! An encoded buffer is decoded once, scaled down by the fixed divisors of
//! the resolution tiers, and the tier that the caller selects is encoded again
//! in the format of the input.
//!
//! - [`format`]: the accepted format tokens.
//! - [`tier`]: the four resolution tiers and their arithmetic.
//! - [`raster`]: the decoded raster, and the three calls into the codec
//!   library. Those calls are the only code here that Verus does not check.
//! - [`resolver`]: the store of the source and its variants, with the
//!   metadata that follows the selected tier.
//! - [`pipeline`]: the entry point, what it returns as a function of its
//!   arguments, and the laws that follow.
//! - [`error`]: the three ways an invocation fails.

pub mod error;
pub mod format;
pub mod pipeline;
pub mod raster;
pub mod resolver;
pub mod tier;

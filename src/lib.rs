//! An inherent-data channel: an off-chain provider packs a value into the
//! per-block inherent data bag, and an on-chain module decodes it, accepts it
//! at most once per block and clears its slot when the next block begins.
pub mod bag;
pub mod codec;
pub mod cycle;
pub mod pallet;
pub mod provider;

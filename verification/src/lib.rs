//! Settlement core of a peer-to-peer asset marketplace: given a listing that
//! escrows a unique asset, it atomically exchanges the buyer's payment for
//! custodial release of the asset, deducting a protocol fee. The fee split,
//! the structural validation of every supplied account against its derived
//! address, and the atomicity of the two transfers are stated in contracts
//! and proved.

pub mod accounts;
pub mod derivation;
pub mod error;
pub mod fees;
pub mod laws;
pub mod purchase;

//! A voucher contract: an admin allows NFT collections (optionally restricted to one trait),
//! holders burn such NFTs by sending them to the contract, and every burn earns the sender one voucher.
use vstd::prelude::*;

pub mod contract;
pub mod error;
pub mod host;
pub mod laws;
pub mod msg;
pub mod nft;
pub mod response;
pub mod state;

verus! {

} // verus!

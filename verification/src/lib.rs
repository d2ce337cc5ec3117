//! Daily fee distribution for a quote-only liquidity position: the day state
//! machine, paged resumption, pro-rata payout arithmetic and day finalization.

pub mod cp_amm;
pub mod error;
pub mod events;
pub mod hash;
pub mod instructions;
pub mod laws;
pub mod lock_accounting;
pub mod math;
pub mod page;
pub mod pagination;
pub mod payout;
pub mod pubkey;
pub mod state;
pub mod streamflow;

pub use error::FeeRouterError;
pub use instructions::distribute_fees::DistributeFees;
pub use math::DistributionMath;
pub use page::{InvestorData, InvestorPage};
pub use pubkey::Pubkey;
pub use state::{InvestorFeePositionOwnerPda, PolicyPda, ProgressPda};

//! Crowdfunding: a campaign with a goal and a deadline takes contributions,
//! and pays out to its owner when the goal was met or back to the
//! contributors when it was not.

pub mod error;
pub mod instruction;
pub mod laws;
pub mod processor;
pub mod state;

pub use error::CrowdfundError;
pub use instruction::CrowdfundInstruction;
pub use processor::{
    contribute, initialize, process_instruction, process_instruction_at, refund, withdraw,
};
pub use state::{Campaign, ContributorAccount, CrowdfundAccount, Phase};

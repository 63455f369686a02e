//! A crowdfunding escrow: campaign records, a vault that only the campaign's
//! derived identity controls, and the rules for creating a campaign, donating
//! to it, withdrawing from it and closing it.

pub mod address;
pub mod custody;
pub mod escrow;
pub mod laws;
pub mod patron;

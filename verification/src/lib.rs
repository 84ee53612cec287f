//! Verified core of a donation-charity platform: campaigns collect lamport
//! donations, the platform takes a commission until a campaign becomes
//! exempt, the largest donations are tracked in bounded leader boards and
//! charity tokens are handed out as gifts and periodic rewards.
//!
//! Every instruction is a function from the accounts it reads (as plain
//! values) to the accounts it writes and the effects (lamport transfers,
//! token mints, events) that the runtime has to carry out.
pub mod pubkey;
pub mod top;
pub mod errors;
pub mod events;
pub mod state;
pub mod effects;
pub mod structures;
pub mod crypton_donation_charity;

pub mod laws;

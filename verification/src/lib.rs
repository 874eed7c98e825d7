//! Tip settlement against one shared configuration record.
//!
//! Three instructions act on the record: Initialize creates it, Tip splits a
//! transfer between a recipient and the treasury and counts it, UpdateFee
//! changes the fee rate. The library decides; the host acts. Each handler
//! validates its accounts and payload and returns a [`Step`]: a lookup or a
//! call for the host to make, with what follows once the host has made it,
//! or the record to store. Nothing is stored before every call that the
//! instruction needs has been accepted.

pub mod address;
pub mod error;
pub mod fee;
pub mod instruction;
pub mod laws;
pub mod le;
pub mod pda;
pub mod processor;
pub mod record;
pub mod step;

pub use address::Address;
pub use error::TipError;
pub use fee::{split_tip, Split, BPS_DENOMINATOR, MAX_FEE_BPS};
pub use instruction::{build_transfer, AccountMeta, Instruction};
pub use pda::{get_config_pda, DerivedAddress};
pub use processor::{initialize, process_instruction, tip, update_fee};
pub use record::{TipConfig, CONFIG_SIZE};
pub use step::{Account, Creation, Invocation, Pending, Step};

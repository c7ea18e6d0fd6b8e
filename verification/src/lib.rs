//! Reconstructs a wallet's trading history from raw transaction records:
//! each record is classified by execution venue, the wallet's net native
//! and token flows are summed from the transfer legs, and one table row
//! is assembled per record.

pub mod price;
pub mod text;
pub mod decimal;
pub mod model;
pub mod flows;
pub mod classify;
pub mod clock;
pub mod row;
pub mod history;

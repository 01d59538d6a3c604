//! CAN identifiers: standard (11-bit) and extended (29-bit) identifiers, the
//! message-ID register layout they are packed into, and the arbitration
//! priority order on registers.

pub mod ident;
pub mod reg;

pub use ident::{ExtendedId, Id, StandardId};
pub use reg::IdReg;

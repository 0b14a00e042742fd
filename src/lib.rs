//! The claim transition of a custody record: an asset held in escrow by the
//! record moves to a recipient, under the custody rules of the record's kind.

pub mod model;
pub mod claim;
pub mod laws;

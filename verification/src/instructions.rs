//! The four state-transition handlers of the sale core, one per request kind.

pub mod claim;
pub mod init_sell;
pub mod make_deposit;
pub mod set_tge;

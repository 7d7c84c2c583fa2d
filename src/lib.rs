pub mod codec;
pub mod fee_history;
pub mod receipt;
pub mod runtime;
pub mod state;
pub mod stf;

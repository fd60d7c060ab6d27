//! A custody gateway: an owner curates a whitelist of token kinds, and anyone may
//! deposit a whitelisted token, or a native denomination, into the admin wallet.
//!
//! Every entry point is a total function of the stored configuration and of the
//! evidence the host attaches to a call (sender, funds, block time, the verdict of
//! its address check); it returns the instructions and events the host is to carry
//! out, and leaves the configuration untouched whenever it fails.

pub mod text;
pub mod whitelist;
pub mod token;
pub mod error;
pub mod state;
pub mod response;
pub mod msg;
pub mod cw20;
pub mod deposit;
pub mod contract;
pub mod program;
pub mod laws;

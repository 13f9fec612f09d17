//! Building an unsigned transaction one action at a time: action builders,
//! the permission-mode selector, and the next-action continuation that
//! threads the transaction through an unbounded chain of them.
pub mod chain;
pub mod config;
pub mod key;
pub mod laws;
pub mod transaction;

pub use chain::{
    AddAccessKeyAction, ChainEnd, CreateAccountAction, DeleteAccessKeyAction, NextAction, Outcome,
    PublicKeyMode, SelectAction,
};
pub use config::{
    ActionKind, ChainResolver, CliAddAccessKeyAction, CliCreateAccountAction,
    CliDeleteAccessKeyAction, CliNextAction, CliPublicKeyMode, CliSelectAction, ResolveState,
};
pub use key::{parse_public_key, ActionError};
pub use transaction::{AccessKeyPermission, Action, UnsignedTransaction};

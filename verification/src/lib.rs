//! Verified core of an on-ledger access-control module.
//!
//! A configuration record stores the identity of its administrator. The
//! record is created once, by a caller who signed the request and thereby
//! becomes the first administrator. Afterwards only a request co-signed by
//! the current administrator can hand the privilege to another identity.
//!
//! Every function here is verified against a contract stated over the
//! mathematical model of the record, [`RecordState`].

pub mod account;
pub mod config;
pub mod error;
pub mod guarantees;
pub mod handler;
pub mod identity;
pub mod model;

pub use account::{AccountInfo, Signer};
pub use config::Config;
pub use error::ErrorCode;
pub use handler::{initialize, update_admin, validate_admin, Initialize, UpdateAdmin};
pub use identity::Identity;
pub use model::{RecordState, Request};

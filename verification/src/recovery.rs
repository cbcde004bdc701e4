//! Upgrading the recovery partition: what is asked for, where things lie on
//! disk, and the order in which the steps are taken.

pub mod command;
pub mod error;
pub mod layout;
pub mod order;
pub mod upgrade;

pub use self::command::recovery;
pub use self::error::RecoveryError;
pub use self::error::ReleaseArchError;

use vstd::prelude::*;

verus! {

/// What a step of an upgrade returns.
pub type RecResult<T> = Result<T, RecoveryError>;

} // verus!

use vstd::prelude::*;

pub mod clean;
pub mod clone;
pub mod init;
pub mod link;
pub mod setup;
pub mod sync;

verus! {

/// The dispatch interface of the commands: each CLI command implements it
/// around the library's decision functions.
pub trait Exec {
    fn execute(&self) -> Result<(), crate::error::MageError>;
}

} // verus!

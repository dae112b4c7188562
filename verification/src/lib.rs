use vstd::prelude::*;

pub mod commands;
pub mod configure;
pub mod dotfiles;
pub mod error;
pub mod magefile;
pub mod repo_url;
pub mod setup;
pub mod text;
pub mod util;

verus! {

/// Arguments of the setup pipeline: where the dotfiles come from and where a
/// repository origin should be cloned to.
pub struct Args {
    pub origin: String,
    pub dotfiles_path: String,
}

/// The result of every fallible operation of the library.
pub type MageResult<T> = Result<T, crate::error::MageError>;

} // verus!

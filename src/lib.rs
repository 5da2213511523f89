//! Finds the build-output directories that sit beside a project marker in a
//! directory tree and decides what becomes of each: the pairing of marker and
//! build-output directory within one listing, the removal policy with its
//! confirmation prompt, and the command line that sets it.

pub mod args;
pub mod pairing;
pub mod remover;
pub mod reply;
pub mod scan;

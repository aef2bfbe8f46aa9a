use vstd::prelude::*;

use crate::env_var::EnvKey;

verus! {

/// The ways the wrapper can fail.
#[derive(Debug)]
pub enum WrapperError {
    /// The toolchain document is not valid TOML.
    Configuration(toml_edit::TomlError),
    /// In the `rustc` role, a variable the `cargo` role must have set is unset.
    MissingBinding(EnvKey),
    /// `rustc` could not be run to print its sysroot.
    RustcNotRun,
    /// What `rustc` printed as its sysroot (the bytes given) is not a directory.
    NotADirectory(Vec<u8>),
    /// An OS string (the bytes given) is not UTF-8.
    NonUtf8(Vec<u8>),
    /// A metadata file's final path (the bytes given) names no file: it is
    /// empty or ends in a separator.
    NoFileName(Vec<u8>),
}

} // verus!

//! Lets one executable act both as a `cargo` plugin and as the `rustc`
//! wrapper that `cargo` runs for each compilation unit.
//!
//! The library decides and prepares; running processes, reading the
//! process environment and touching the file system are left to the caller,
//! who hands the library plain values and runs the [`Invocation`]s it gets
//! back. Paths and OS strings are held as the raw bytes of a Unix `OsStr`.

pub mod cargo;
pub mod command;
pub mod env_var;
pub mod error;
pub mod metadata;
pub mod role;
pub mod rustc;
pub mod sysroot;
pub mod toolchain;

pub use command::{exit_code, exit_on_failure, Invocation, WrappedCommand};
pub use env_var::{EnvKey, EnvVar, Environment, VarError};
pub use error::WrapperError;
pub use sysroot::{resolve_sysroot, sysroot_candidate, sysroot_probe};
pub use toolchain::select_toolchain;
pub use cargo::CargoWrapper;
pub use rustc::{strings_from_utf8, RustcWrapper};
pub use role::{invocation_role, Role};
pub use metadata::{Finalize, MetadataFile};

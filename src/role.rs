use vstd::prelude::*;

use crate::env_var::{EnvKey, EnvVar, Environment};

verus! {

/// The role an invocation of the executable plays.
#[derive(Clone, Copy, Debug, PartialEq, Eq, Structural)]
pub enum Role {
    /// Run by the user, as a `cargo` plugin: the first invocation.
    Cargo,
    /// Run by `cargo` in place of `rustc`, for one compilation unit.
    Rustc,
}

/// The role of an invocation of the executable at `own_exe`, where
/// `RUSTC_WRAPPER` holds `rustc_wrapper`: `rustc` exactly where that names
/// the executable itself.
pub open spec fn role_of(own_exe: Seq<u8>, rustc_wrapper: Option<Seq<u8>>) -> Role {
    if rustc_wrapper == Some(own_exe) {
        Role::Rustc
    } else {
        Role::Cargo
    }
}

/// The role of this invocation, where the executable's own path is
/// `own_exe`: the `cargo` role arranged for `cargo` to run this executable in
/// place of `rustc` exactly when `RUSTC_WRAPPER` names it.
pub fn invocation_role(own_exe: &Vec<u8>, env: &Environment) -> (r: Role)
    ensures
        r == role_of(own_exe@, env.var(EnvKey::RustcWrapper)),
{
    match EnvVar::get_path(env, EnvKey::RustcWrapper) {
        Some(current) => {
            let own = EnvVar { key: EnvKey::RustcWrapper, value: crate::env_var::copy_bytes(own_exe) };
            if current.same_binding(&own) {
                Role::Rustc
            } else {
                Role::Cargo
            }
        },
        None => Role::Cargo,
    }
}

/// For every executable path `p`: where `RUSTC_WRAPPER` is exactly `p` and
/// the executable runs from `p`, the invocation plays the `rustc` role; for
/// any other value of the variable, unset included, the `cargo` role.
pub proof fn role_is_rustc_exactly_when_wrapper_is_self(p: Seq<u8>, v: Option<Seq<u8>>)
    ensures
        role_of(p, Some(p)) == Role::Rustc,
        v != Some(p) ==> role_of(p, v) == Role::Cargo,
        role_of(p, None) == Role::Cargo,
{
}

} // verus!

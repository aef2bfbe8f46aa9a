use vstd::prelude::*;
use vstd::utf8::{decode_utf8, valid_utf8};

use crate::error::WrapperError;

verus! {

/// The environment variables through which the two roles of the wrapper,
/// and the tools they run, pass state to each other.
#[derive(Clone, Copy, Debug, PartialEq, Eq, Structural)]
pub enum EnvKey {
    /// `RUSTC_WRAPPER`: the program `cargo` runs in place of `rustc`.
    RustcWrapper,
    /// `RUST_SYSROOT`: the sysroot resolved by the `cargo` role.
    Sysroot,
    /// `RUSTUP_TOOLCHAIN`: the toolchain `rustup` selects for `cargo`.
    RustupToolchain,
    /// `CARGO`: overrides the `cargo` executable.
    Cargo,
    /// `RUSTC`: overrides the `rustc` executable.
    Rustc,
    /// `CARGO_PRIMARY_PACKAGE`: set by `cargo` for the packages the user selected.
    CargoPrimaryPackage,
    /// `CARGO_BIN_NAME`: set by `cargo` when it compiles a binary target.
    CargoBinName,
}

impl EnvKey {
    pub open spec fn spec_name(self) -> Seq<char> {
        match self {
            EnvKey::RustcWrapper => "RUSTC_WRAPPER"@,
            EnvKey::Sysroot => "RUST_SYSROOT"@,
            EnvKey::RustupToolchain => "RUSTUP_TOOLCHAIN"@,
            EnvKey::Cargo => "CARGO"@,
            EnvKey::Rustc => "RUSTC"@,
            EnvKey::CargoPrimaryPackage => "CARGO_PRIMARY_PACKAGE"@,
            EnvKey::CargoBinName => "CARGO_BIN_NAME"@,
        }
    }

    /// The variable's name in the process environment.
    pub fn name(&self) -> (r: &'static str)
        ensures
            r@ == self.spec_name(),
    {
        match self {
            EnvKey::RustcWrapper => "RUSTC_WRAPPER",
            EnvKey::Sysroot => "RUST_SYSROOT",
            EnvKey::RustupToolchain => "RUSTUP_TOOLCHAIN",
            EnvKey::Cargo => "CARGO",
            EnvKey::Rustc => "RUSTC",
            EnvKey::CargoPrimaryPackage => "CARGO_PRIMARY_PACKAGE",
            EnvKey::CargoBinName => "CARGO_BIN_NAME",
        }
    }
}

/// A binding of an environment variable to a value.
#[derive(Debug)]
pub struct EnvVar<V> {
    pub key: EnvKey,
    pub value: V,
}

/// Why a variable could not be read as a `String`.
#[derive(Debug)]
pub enum VarError {
    /// The variable (the key given) is unset.
    NotPresent(EnvKey),
    /// The variable is set, but its value (the bytes given) is not UTF-8.
    NotUnicode(Vec<u8>),
}

/// Byte-wise equality of two OS strings.
pub fn bytes_eq(a: &[u8], b: &[u8]) -> (r: bool)
    ensures
        r == (a@ == b@),
{
    if a.len() != b.len() {
        return false;
    }
    let mut i: usize = 0;
    while i < a.len()
        invariant
            a@.len() == b@.len(),
            0 <= i <= a@.len(),
            a@.subrange(0, i as int) == b@.subrange(0, i as int),
        decreases a@.len() - i,
    {
        if a[i] != b[i] {
            assert(a@[i as int] != b@[i as int]);
            return false;
        }
        assert(a@.subrange(0, i + 1) == a@.subrange(0, i as int).push(a@[i as int]));
        assert(b@.subrange(0, i + 1) == b@.subrange(0, i as int).push(b@[i as int]));
        i = i + 1;
    }
    assert(a@ == a@.subrange(0, a@.len() as int));
    assert(b@ == b@.subrange(0, b@.len() as int));
    true
}

/// A copy of an OS string.
pub fn copy_bytes(a: &Vec<u8>) -> (r: Vec<u8>)
    ensures
        r@ == a@,
{
    let r = a.clone();
    assert(r@ =~= a@);
    r
}

impl EnvVar<Vec<u8>> {
    pub open spec fn view_binding(&self) -> (EnvKey, Seq<u8>) {
        (self.key, self.value@)
    }

    /// Two bindings are the same when both their keys and their values are.
    pub fn same_binding(&self, other: &EnvVar<Vec<u8>>) -> (r: bool)
        ensures
            r == (self.view_binding() == other.view_binding()),
    {
        self.key == other.key && bytes_eq(self.value.as_slice(), other.value.as_slice())
    }

    /// Reads `key` from the environment, as raw bytes.
    pub fn get_os(env: &Environment, key: EnvKey) -> (r: Option<EnvVar<Vec<u8>>>)
        ensures
            r.is_none() == env.var(key).is_none(),
            r matches Some(v) ==> v.key == key && Some(v.value@) == env.var(key),
    {
        match env.get(key) {
            Some(value) => Some(EnvVar { key, value }),
            None => None,
        }
    }

    /// Reads `key` from the environment as a path; on Unix a path is its bytes.
    pub fn get_path(env: &Environment, key: EnvKey) -> (r: Option<EnvVar<Vec<u8>>>)
        ensures
            r.is_none() == env.var(key).is_none(),
            r matches Some(v) ==> v.key == key && Some(v.value@) == env.var(key),
    {
        EnvVar::get_os(env, key)
    }

    /// Reads `key`, which must be set: a binding that another step was
    /// bound to make. An unset variable is an error that names it.
    pub fn require(env: &Environment, key: EnvKey) -> (r: Result<EnvVar<Vec<u8>>, WrapperError>)
        ensures
            env.var(key).is_none() ==> (r matches Err(WrapperError::MissingBinding(k)) && k == key),
            env.var(key) matches Some(b) ==> (r matches Ok(v) && v.key == key && v.value@ == b),
    {
        match EnvVar::get_path(env, key) {
            Some(v) => Ok(v),
            None => Err(WrapperError::MissingBinding(key)),
        }
    }
}

impl EnvVar<String> {
    /// Reads `key` from the environment as a UTF-8 string.
    pub fn get(env: &Environment, key: EnvKey) -> (r: Result<EnvVar<String>, VarError>)
        ensures
            match env.var(key) {
                None => r == Err::<EnvVar<String>, VarError>(VarError::NotPresent(key)),
                Some(b) => if valid_utf8(b) {
                    r matches Ok(v) && v.key == key && v.value@ == decode_utf8(b)
                } else {
                    r matches Err(VarError::NotUnicode(raw)) && raw@ == b
                },
            },
    {
        match env.get(key) {
            None => Err(VarError::NotPresent(key)),
            Some(raw) => {
                let copy = copy_bytes(&raw);
                match string_from_utf8(raw) {
                    Some(value) => Ok(EnvVar { key, value }),
                    None => Err(VarError::NotUnicode(copy)),
                }
            },
        }
    }
}

/// Relies on `String::from_utf8`: it succeeds exactly on valid UTF-8, and
/// then holds the characters those bytes encode.
#[verifier::external_body]
pub(crate) fn string_from_utf8(b: Vec<u8>) -> (r: Option<String>)
    ensures
        r.is_some() == valid_utf8(b@),
        r matches Some(s) ==> s@ == decode_utf8(b@),
{
    String::from_utf8(b).ok()
}

/// The values, at one moment, of the environment variables the library reads.
/// A field is `None` where the variable is unset.
pub struct Environment {
    pub rustc_wrapper: Option<Vec<u8>>,
    pub sysroot: Option<Vec<u8>>,
    pub cargo: Option<Vec<u8>>,
    pub rustc: Option<Vec<u8>>,
    pub cargo_primary_package: Option<Vec<u8>>,
    pub cargo_bin_name: Option<Vec<u8>>,
}

pub open spec fn opt_bytes(o: Option<Vec<u8>>) -> Option<Seq<u8>> {
    match o {
        Some(v) => Some(v@),
        None => None,
    }
}

impl Environment {
    /// The value of `key`, where the library reads it.
    pub open spec fn var(&self, key: EnvKey) -> Option<Seq<u8>> {
        match key {
            EnvKey::RustcWrapper => opt_bytes(self.rustc_wrapper),
            EnvKey::Sysroot => opt_bytes(self.sysroot),
            EnvKey::Cargo => opt_bytes(self.cargo),
            EnvKey::Rustc => opt_bytes(self.rustc),
            EnvKey::CargoPrimaryPackage => opt_bytes(self.cargo_primary_package),
            EnvKey::CargoBinName => opt_bytes(self.cargo_bin_name),
            EnvKey::RustupToolchain => None,
        }
    }

    /// A copy of the value of `key`; `RUSTUP_TOOLCHAIN` is only ever
    /// written by the library, never read, and so reads as unset.
    pub fn get(&self, key: EnvKey) -> (r: Option<Vec<u8>>)
        ensures
            opt_bytes(r) == self.var(key),
    {
        let field = match key {
            EnvKey::RustcWrapper => &self.rustc_wrapper,
            EnvKey::Sysroot => &self.sysroot,
            EnvKey::Cargo => &self.cargo,
            EnvKey::Rustc => &self.rustc,
            EnvKey::CargoPrimaryPackage => &self.cargo_primary_package,
            EnvKey::CargoBinName => &self.cargo_bin_name,
            EnvKey::RustupToolchain => return None,
        };
        match field {
            Some(v) => Some(copy_bytes(v)),
            None => None,
        }
    }
}

} // verus!

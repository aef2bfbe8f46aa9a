use vstd::prelude::*;
use vstd::string::StrSliceExecFns;
use vstd::utf8::{decode_utf8, encode_utf8, valid_utf8};

use crate::command::{bytes_list, Invocation, WrappedCommand};
use crate::env_var::{bytes_eq, copy_bytes, string_from_utf8, EnvKey, EnvVar, Environment};
use crate::error::WrapperError;

verus! {

pub open spec fn sysroot_flag() -> Seq<u8> {
    encode_utf8("--sysroot"@)
}

/// `args` has `--crate-type bin` as two consecutive arguments, as `cargo`
/// passes it for binaries and build scripts.
pub open spec fn has_crate_type_bin(args: Seq<Seq<u8>>) -> bool {
    exists|i: int|
        0 <= i && i + 1 < args.len() && #[trigger] args[i] == encode_utf8("--crate-type"@)
            && args[i + 1] == encode_utf8("bin"@)
}

/// Every OS string in `l` is UTF-8.
pub open spec fn all_utf8(l: Seq<Seq<u8>>) -> bool {
    forall|i: int| 0 <= i < l.len() ==> valid_utf8(#[trigger] l[i])
}

/// `l[i]` is the first OS string in `l` that is not UTF-8.
pub open spec fn first_non_utf8(l: Seq<Seq<u8>>, i: int) -> bool {
    &&& 0 <= i < l.len()
    &&& !valid_utf8(l[i])
    &&& forall|j: int| 0 <= j < i ==> valid_utf8(#[trigger] l[j])
}

/// The strings that `l` holds, each converted from UTF-8, where all are.
pub fn strings_from_utf8(l: &Vec<Vec<u8>>) -> (r: Result<Vec<String>, WrapperError>)
    ensures
        r.is_ok() == all_utf8(bytes_list(l@)),
        r matches Ok(v) ==> v@.len() == l@.len() && forall|i: int|
            0 <= i < l@.len() ==> (#[trigger] v@[i])@ == decode_utf8(l@[i]@),
        r matches Err(e) ==> e matches WrapperError::NonUtf8(b) && exists|i: int|
            first_non_utf8(bytes_list(l@), i) && b@ == #[trigger] l@[i]@,
{
    let mut out: Vec<String> = Vec::new();
    let mut i: usize = 0;
    while i < l.len()
        invariant
            0 <= i <= l@.len(),
            out@.len() == i,
            forall|j: int| 0 <= j < i ==> valid_utf8(#[trigger] bytes_list(l@)[j]),
            forall|j: int| 0 <= j < i ==> (#[trigger] out@[j])@ == decode_utf8(l@[j]@),
        decreases l@.len() - i,
    {
        let raw = copy_bytes(&l[i]);
        match string_from_utf8(copy_bytes(&raw)) {
            Some(s) => {
                out.push(s);
            },
            None => {
                assert(first_non_utf8(bytes_list(l@), i as int));
                return Err(WrapperError::NonUtf8(raw));
            },
        }
        i = i + 1;
    }
    Ok(out)
}

/// The state of the `rustc` role: the arguments `cargo` passed for one
/// compilation unit, and what the `cargo` role and `cargo` set for it.
pub struct RustcWrapper {
    /// The arguments meant for `rustc`.
    pub args: Vec<Vec<u8>>,
    /// `RUST_SYSROOT`, as the `cargo` role set it.
    pub sysroot: EnvVar<Vec<u8>>,
    /// Whether `CARGO_PRIMARY_PACKAGE` is set.
    pub primary_package: bool,
    /// `CARGO_BIN_NAME`, where it is set.
    pub bin_name: Option<Vec<u8>>,
}

impl RustcWrapper {
    /// The arguments that `rustc` is run with: those `cargo` passed, then
    /// `--sysroot` and the sysroot.
    pub open spec fn os_args(&self) -> Seq<Seq<u8>> {
        bytes_list(self.args@) + seq![sysroot_flag(), self.sysroot.value@]
    }

    /// The `rustc` role for one compilation unit, given its arguments (the
    /// process's own, without the program name) and the environment. That
    /// `RUST_SYSROOT` is unset means the `cargo` role never ran: an error.
    pub fn new(args: Vec<Vec<u8>>, env: &Environment) -> (r: Result<RustcWrapper, WrapperError>)
        ensures
            env.var(EnvKey::Sysroot).is_none() ==> r matches Err(
                WrapperError::MissingBinding(EnvKey::Sysroot),
            ),
            env.var(EnvKey::Sysroot).is_some() ==> r is Ok,
            r matches Ok(w) ==> {
                &&& bytes_list(w.args@) == bytes_list(args@)
                &&& w.sysroot.key == EnvKey::Sysroot
                &&& Some(w.sysroot.value@) == env.var(EnvKey::Sysroot)
                &&& w.primary_package == env.var(EnvKey::CargoPrimaryPackage).is_some()
                &&& match w.bin_name {
                    Some(b) => env.var(EnvKey::CargoBinName) == Some(b@),
                    None => env.var(EnvKey::CargoBinName).is_none(),
                }
            },
    {
        match EnvVar::require(env, EnvKey::Sysroot) {
            Err(e) => Err(e),
            Ok(sysroot) => Ok(
                RustcWrapper {
                    args,
                    sysroot,
                    primary_package: env.get(EnvKey::CargoPrimaryPackage).is_some(),
                    bin_name: env.get(EnvKey::CargoBinName),
                },
            ),
        }
    }

    /// Whether `cargo` compiles this unit for a package the user selected.
    pub fn is_primary_package(&self) -> (r: bool)
        ensures
            r == self.primary_package,
    {
        self.primary_package
    }

    /// Whether this unit is a binary or a build script: the arguments hold
    /// `--crate-type bin`.
    pub fn is_bin_crate(&self) -> (r: bool)
        ensures
            r == has_crate_type_bin(bytes_list(self.args@)),
    {
        let ghost a = bytes_list(self.args@);
        let flag = "--crate-type".as_bytes_vec();
        let bin = "bin".as_bytes_vec();
        let mut i: usize = 0;
        while i < self.args.len() && i + 1 < self.args.len()
            invariant
                a == bytes_list(self.args@),
                flag@ == encode_utf8("--crate-type"@),
                bin@ == encode_utf8("bin"@),
                0 <= i <= self.args@.len(),
                forall|j: int|
                    0 <= j < i && j + 1 < a.len() ==> !(#[trigger] a[j] == flag@ && a[j + 1]
                        == bin@),
            decreases self.args@.len() - i,
        {
            if bytes_eq(self.args[i].as_slice(), flag.as_slice()) && bytes_eq(
                self.args[i + 1].as_slice(),
                bin.as_slice(),
            ) {
                assert(a[i as int] == flag@ && a[i + 1] == bin@);
                return true;
            }
            i = i + 1;
        }
        false
    }

    /// `CARGO_BIN_NAME`: the name of the binary target being compiled, where it is one.
    pub fn bin_crate_name(&self) -> (r: Option<Vec<u8>>)
        ensures
            match r {
                Some(b) => self.bin_name matches Some(n) && b@ == n@,
                None => self.bin_name.is_none(),
            },
    {
        match &self.bin_name {
            Some(n) => Some(copy_bytes(n)),
            None => None,
        }
    }

    /// Whether this unit is a build script: compiled as a binary, but not for
    /// a binary target.
    pub fn is_build_script(&self) -> (r: bool)
        ensures
            r == (self.bin_name.is_none() && has_crate_type_bin(bytes_list(self.args@))),
    {
        self.bin_crate_name().is_none() && self.is_bin_crate()
    }

    /// The arguments to run `rustc` with, as OS strings.
    pub fn rustc_args_os(self) -> (r: Vec<Vec<u8>>)
        ensures
            bytes_list(r@) == self.os_args(),
    {
        let ghost expected = self.os_args();
        let RustcWrapper { mut args, sysroot, .. } = self;
        args.push("--sysroot".as_bytes_vec());
        args.push(sysroot.value);
        proof {
            assert(bytes_list(args@) =~= expected);
        }
        args
    }

    /// The arguments to run `rustc` with, as UTF-8 strings; the first that is
    /// not UTF-8 is an error.
    pub fn rustc_args(self) -> (r: Result<Vec<String>, WrapperError>)
        ensures
            r.is_ok() == all_utf8(self.os_args()),
            r matches Ok(v) ==> v@.len() == self.os_args().len() && forall|i: int|
                0 <= i < v@.len() ==> (#[trigger] v@[i])@ == decode_utf8(self.os_args()[i]),
            r matches Err(e) ==> e matches WrapperError::NonUtf8(b) && exists|i: int|
                first_non_utf8(self.os_args(), i) && b@ == #[trigger] self.os_args()[i],
    {
        let ghost expected = self.os_args();
        let args = self.rustc_args_os();
        let r = strings_from_utf8(&args);
        proof {
            assert(bytes_list(args@) == expected);
            if let Ok(v) = &r {
                assert forall|i: int| 0 <= i < v@.len() implies (#[trigger] v@[i])@ == decode_utf8(
                    expected[i],
                ) by {
                    assert(expected[i] == args@[i]@);
                }
            }
            if let Err(WrapperError::NonUtf8(b)) = &r {
                let i = choose|i: int|
                    first_non_utf8(bytes_list(args@), i) && b@ == #[trigger] args@[i]@;
                assert(expected[i] == b@);
            }
        }
        r
    }

    /// The invocation of the real `rustc` for this unit.
    pub fn run_rustc(self, rustc: &WrappedCommand) -> (r: Invocation)
        ensures
            r.program@ == rustc.path@,
            r.view_args() == self.os_args(),
            r.view_envs().len() == 0,
    {
        let mut cmd = rustc.command();
        cmd.args = self.rustc_args_os();
        cmd
    }
}

} // verus!

use vstd::prelude::*;
use vstd::string::StrSliceExecFns;
use vstd::utf8::encode_utf8;

use crate::env_var::{copy_bytes, EnvKey, EnvVar, Environment};

verus! {

/// What a child process is run with: the program, its arguments, and the
/// environment bindings added to those it inherits, in the order they are set.
pub struct Invocation {
    pub program: Vec<u8>,
    pub args: Vec<Vec<u8>>,
    pub envs: Vec<EnvVar<Vec<u8>>>,
}

/// A list of OS strings, as byte sequences.
pub open spec fn bytes_list(l: Seq<Vec<u8>>) -> Seq<Seq<u8>> {
    l.map_values(|v: Vec<u8>| v@)
}

pub open spec fn envs_view(envs: Seq<EnvVar<Vec<u8>>>) -> Seq<(EnvKey, Seq<u8>)> {
    envs.map_values(|e: EnvVar<Vec<u8>>| e.view_binding())
}

impl Invocation {
    pub open spec fn view_args(&self) -> Seq<Seq<u8>> {
        bytes_list(self.args@)
    }

    pub open spec fn view_envs(&self) -> Seq<(EnvKey, Seq<u8>)> {
        envs_view(self.envs@)
    }

    /// An invocation of `program` with no arguments and no added bindings.
    pub fn new(program: Vec<u8>) -> (r: Invocation)
        ensures
            r.program@ == program@,
            r.view_args().len() == 0,
            r.envs@.len() == 0,
    {
        Invocation { program, args: Vec::new(), envs: Vec::new() }
    }

    /// Appends one argument.
    pub fn arg(&mut self, a: Vec<u8>)
        ensures
            final(self).program@ == old(self).program@,
            final(self).view_args() == old(self).view_args().push(a@),
            final(self).view_envs() == old(self).view_envs(),
    {
        self.args.push(a);
        proof {
            assert(self.view_args() =~= old(self).view_args().push(a@));
        }
    }

    /// Adds one environment binding, set after those already added.
    pub fn env(&mut self, var: EnvVar<Vec<u8>>)
        ensures
            final(self).program@ == old(self).program@,
            final(self).view_args() == old(self).view_args(),
            final(self).view_envs() == old(self).view_envs().push(var.view_binding()),
    {
        self.envs.push(var);
        proof {
            assert(self.view_envs() =~= old(self).view_envs().push(var.view_binding()));
        }
    }
}

impl EnvVar<Vec<u8>> {
    /// Adds this binding to the environment of `cmd`.
    pub fn set_on(&self, cmd: &mut Invocation)
        ensures
            final(cmd).program@ == old(cmd).program@,
            final(cmd).view_args() == old(cmd).view_args(),
            final(cmd).view_envs() == old(cmd).view_envs().push(self.view_binding()),
    {
        cmd.env(EnvVar { key: self.key, value: copy_bytes(&self.value) });
    }
}

impl EnvVar<String> {
    /// The binding with the value's UTF-8 bytes.
    pub open spec fn view_binding(&self) -> (EnvKey, Seq<u8>) {
        (self.key, encode_utf8(self.value@))
    }

    /// Adds this binding to the environment of `cmd`.
    pub fn set_on(&self, cmd: &mut Invocation)
        ensures
            final(cmd).program@ == old(cmd).program@,
            final(cmd).view_args() == old(cmd).view_args(),
            final(cmd).view_envs() == old(cmd).view_envs().push(self.view_binding()),
    {
        cmd.env(EnvVar { key: self.key, value: self.value.as_str().as_bytes_vec() });
    }
}

/// An external tool that the caller may point elsewhere with an environment variable.
pub struct WrappedCommand {
    pub path: Vec<u8>,
}

impl WrappedCommand {
    /// The tool found at the value of its override variable when that is set
    /// (`override_value`), else `program`, to be looked up on the search path.
    pub fn new(program: &str, override_value: Option<Vec<u8>>) -> (r: WrappedCommand)
        ensures
            r.path@ == match override_value {
                Some(v) => v@,
                None => encode_utf8(program@),
            },
    {
        match override_value {
            Some(v) => WrappedCommand { path: v },
            None => WrappedCommand { path: program.as_bytes_vec() },
        }
    }

    /// A fresh invocation of the tool, with no arguments.
    pub fn command(&self) -> (r: Invocation)
        ensures
            r.program@ == self.path@,
            r.view_args().len() == 0,
            r.envs@.len() == 0,
    {
        Invocation::new(copy_bytes(&self.path))
    }

    /// `cargo`, or what `CARGO` names.
    pub fn cargo(env: &Environment) -> (r: WrappedCommand)
        ensures
            r.path@ == match env.var(EnvKey::Cargo) {
                Some(v) => v,
                None => encode_utf8("cargo"@),
            },
    {
        WrappedCommand::new("cargo", env.get(EnvKey::Cargo))
    }

    /// `rustc`, or what `RUSTC` names.
    pub fn rustc(env: &Environment) -> (r: WrappedCommand)
        ensures
            r.path@ == match env.var(EnvKey::Rustc) {
                Some(v) => v,
                None => encode_utf8("rustc"@),
            },
    {
        WrappedCommand::new("rustc", env.get(EnvKey::Rustc))
    }
}

/// The exit code that stands for a finished child's status: its own code,
/// or 1 where it has none (it was ended by a signal).
pub open spec fn status_exit_code(code: Option<i32>) -> i32 {
    match code {
        Some(k) => k,
        None => 1i32,
    }
}

/// The exit code that stands for a finished child's status.
pub fn exit_code(code: Option<i32>) -> (r: i32)
    ensures
        r == status_exit_code(code),
{
    match code {
        Some(k) => k,
        None => 1,
    }
}

/// What follows a child that has finished: `None` where it succeeded and the
/// caller goes on, else `Some(k)`, the code the current process exits with.
pub fn exit_on_failure(success: bool, code: Option<i32>) -> (r: Option<i32>)
    ensures
        success ==> r.is_none(),
        !success ==> r == Some(status_exit_code(code)),
{
    if success {
        None
    } else {
        Some(exit_code(code))
    }
}

/// A child that failed with exit code `k` ends the current process with `k`.
pub proof fn failure_exit_code_is_forwarded(k: i32)
    ensures
        status_exit_code(Some(k)) == k,
{
}

} // verus!

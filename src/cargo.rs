use vstd::prelude::*;

use crate::command::{Invocation, WrappedCommand};
use crate::env_var::{EnvKey, EnvVar};
use crate::error::WrapperError;
use crate::toolchain::{is_toml_document, select_toolchain, toolchain_channel_in};

verus! {

/// The state of the `cargo` role: what it passes on to each `cargo` it runs.
pub struct CargoWrapper {
    /// `RUSTC_WRAPPER`, naming this executable.
    pub rustc_wrapper: EnvVar<Vec<u8>>,
    /// `RUST_SYSROOT`, the resolved sysroot.
    pub sysroot: EnvVar<Vec<u8>>,
    /// `RUSTUP_TOOLCHAIN`, where a toolchain was selected.
    pub toolchain: Option<EnvVar<String>>,
}

impl CargoWrapper {
    pub open spec fn toolchain_channel(&self) -> Option<Seq<char>> {
        match self.toolchain {
            Some(t) => Some(t.value@),
            None => None,
        }
    }

    /// Each binding's key is the variable it belongs in.
    pub open spec fn wf(&self) -> bool {
        &&& self.rustc_wrapper.key == EnvKey::RustcWrapper
        &&& self.sysroot.key == EnvKey::Sysroot
        &&& self.toolchain matches Some(t) ==> t.key == EnvKey::RustupToolchain
    }

    /// The bindings that every `cargo` run gets: the toolchain, where one was selected.
    pub open spec fn toolchain_envs(&self) -> Seq<(EnvKey, Seq<u8>)> {
        match self.toolchain {
            Some(t) => seq![t.view_binding()],
            None => seq![],
        }
    }

    /// The `cargo` role for the executable at `own_exe`, with `sysroot` resolved.
    pub fn new(own_exe: Vec<u8>, sysroot: Vec<u8>) -> (r: CargoWrapper)
        ensures
            r.wf(),
            r.rustc_wrapper.value@ == own_exe@,
            r.sysroot.value@ == sysroot@,
            r.toolchain.is_none(),
    {
        CargoWrapper {
            rustc_wrapper: EnvVar { key: EnvKey::RustcWrapper, value: own_exe },
            sysroot: EnvVar { key: EnvKey::Sysroot, value: sysroot },
            toolchain: None,
        }
    }

    /// Selects `channel` as the toolchain, where it is `Some`; `None` keeps
    /// what was selected before.
    pub fn set_toolchain_channel(&mut self, channel: Option<String>)
        requires
            old(self).wf(),
        ensures
            final(self).wf(),
            final(self).rustc_wrapper == old(self).rustc_wrapper,
            final(self).sysroot == old(self).sysroot,
            final(self).toolchain_channel() == match channel {
                Some(c) => Some(c@),
                None => old(self).toolchain_channel(),
            },
    {
        match channel {
            Some(c) => {
                self.toolchain = Some(EnvVar { key: EnvKey::RustupToolchain, value: c });
            },
            None => {},
        }
    }

    /// Selects the toolchain channel that the `rust-toolchain.toml` document
    /// `text` names, so that `cargo` runs a toolchain compatible with the one
    /// this executable was built against. A document without one keeps what
    /// was selected before; text that is not TOML changes nothing and fails.
    pub fn set_rustup_toolchain(&mut self, text: &str) -> (r: Result<(), WrapperError>)
        requires
            old(self).wf(),
        ensures
            final(self).wf(),
            final(self).rustc_wrapper == old(self).rustc_wrapper,
            final(self).sysroot == old(self).sysroot,
            r.is_ok() == is_toml_document(text@),
            r matches Err(e) ==> e is Configuration && final(self).toolchain_channel()
                == old(self).toolchain_channel(),
            r is Ok ==> final(self).toolchain_channel() == match toolchain_channel_in(text@) {
                Some(c) => Some(c),
                None => old(self).toolchain_channel(),
            },
    {
        match select_toolchain(text) {
            Ok(c) => {
                self.set_toolchain_channel(c);
                Ok(())
            },
            Err(e) => Err(e),
        }
    }

    /// The `cargo` invocation to run: `cargo` with the selected toolchain.
    pub fn run_cargo(&self, cargo: &WrappedCommand) -> (r: Invocation)
        ensures
            r.program@ == cargo.path@,
            r.view_args().len() == 0,
            r.view_envs() == self.toolchain_envs(),
    {
        let mut cmd = cargo.command();
        match &self.toolchain {
            Some(t) => t.set_on(&mut cmd),
            None => {},
        }
        proof {
            assert(cmd.view_envs() =~= self.toolchain_envs());
        }
        cmd
    }

    /// The `cargo` invocation to run so that `cargo` runs this executable in
    /// place of `rustc`: the selected toolchain, then `RUSTC_WRAPPER` naming
    /// this executable, then `RUST_SYSROOT`.
    pub fn run_cargo_with_rustc_wrapper(&self, cargo: &WrappedCommand) -> (r: Invocation)
        ensures
            r.program@ == cargo.path@,
            r.view_args().len() == 0,
            r.view_envs() == self.toolchain_envs() + seq![
                self.rustc_wrapper.view_binding(),
                self.sysroot.view_binding(),
            ],
    {
        let mut cmd = self.run_cargo(cargo);
        self.rustc_wrapper.set_on(&mut cmd);
        self.sysroot.set_on(&mut cmd);
        proof {
            assert(cmd.view_envs() =~= self.toolchain_envs() + seq![
                self.rustc_wrapper.view_binding(),
                self.sysroot.view_binding(),
            ]);
        }
        cmd
    }
}

} // verus!

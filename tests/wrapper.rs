use cargo_wrap::{
    exit_code, exit_on_failure, sysroot_probe, invocation_role, resolve_sysroot, select_toolchain,
    strings_from_utf8, sysroot_candidate, CargoWrapper, EnvKey, EnvVar, Environment, Finalize,
    MetadataFile, Role, RustcWrapper, VarError, WrappedCommand, WrapperError,
};

fn b(s: &str) -> Vec<u8> {
    s.as_bytes().to_vec()
}

fn empty_env() -> Environment {
    Environment {
        rustc_wrapper: None,
        sysroot: None,
        cargo: None,
        rustc: None,
        cargo_primary_package: None,
        cargo_bin_name: None,
    }
}

fn envs_of(envs: &[EnvVar<Vec<u8>>]) -> Vec<(&'static str, Vec<u8>)> {
    envs.iter().map(|e| (e.key.name(), e.value.clone())).collect()
}

#[test]
fn env_key_names() {
    assert_eq!(EnvKey::RustcWrapper.name(), "RUSTC_WRAPPER");
    assert_eq!(EnvKey::Sysroot.name(), "RUST_SYSROOT");
    assert_eq!(EnvKey::RustupToolchain.name(), "RUSTUP_TOOLCHAIN");
    assert_eq!(EnvKey::Cargo.name(), "CARGO");
    assert_eq!(EnvKey::Rustc.name(), "RUSTC");
    assert_eq!(EnvKey::CargoPrimaryPackage.name(), "CARGO_PRIMARY_PACKAGE");
    assert_eq!(EnvKey::CargoBinName.name(), "CARGO_BIN_NAME");
}

#[test]
fn env_var_reads() {
    let mut env = empty_env();
    env.sysroot = Some(b("/opt/rust"));
    env.cargo_bin_name = Some(vec![0x66, 0xff]);
    let s = EnvVar::get_os(&env, EnvKey::Sysroot).unwrap();
    assert_eq!(s.key, EnvKey::Sysroot);
    assert_eq!(s.value, b("/opt/rust"));
    assert_eq!(EnvVar::get_path(&env, EnvKey::Sysroot).unwrap().value, b("/opt/rust"));
    assert!(EnvVar::get_os(&env, EnvKey::Cargo).is_none());
    assert!(EnvVar::get_path(&env, EnvKey::RustupToolchain).is_none());
    let text = EnvVar::get(&env, EnvKey::Sysroot).unwrap();
    assert_eq!(text.value, "/opt/rust".to_string());
    assert!(matches!(EnvVar::get(&env, EnvKey::Rustc), Err(VarError::NotPresent(EnvKey::Rustc))));
    match EnvVar::get(&env, EnvKey::CargoBinName) {
        Err(VarError::NotUnicode(raw)) => assert_eq!(raw, vec![0x66, 0xff]),
        _ => panic!("expected a non-UTF-8 error"),
    }
}

#[test]
fn same_binding_compares_key_and_value() {
    let a = EnvVar { key: EnvKey::RustcWrapper, value: b("/bin/tool") };
    let same = EnvVar { key: EnvKey::RustcWrapper, value: b("/bin/tool") };
    let other_value = EnvVar { key: EnvKey::RustcWrapper, value: b("/bin/tool2") };
    let other_key = EnvVar { key: EnvKey::Sysroot, value: b("/bin/tool") };
    assert!(a.same_binding(&same));
    assert!(!a.same_binding(&other_value));
    assert!(!a.same_binding(&other_key));
}

#[test]
fn wrapped_command_override() {
    assert_eq!(WrappedCommand::new("cargo", None).path, b("cargo"));
    assert_eq!(WrappedCommand::new("cargo", Some(b("/x/cargo"))).path, b("/x/cargo"));
    let mut env = empty_env();
    assert_eq!(WrappedCommand::cargo(&env).path, b("cargo"));
    assert_eq!(WrappedCommand::rustc(&env).path, b("rustc"));
    env.cargo = Some(b("/c/cargo"));
    env.rustc = Some(b("/r/rustc"));
    assert_eq!(WrappedCommand::cargo(&env).path, b("/c/cargo"));
    assert_eq!(WrappedCommand::rustc(&env).path, b("/r/rustc"));
    let cmd = WrappedCommand::rustc(&env).command();
    assert_eq!(cmd.program, b("/r/rustc"));
    assert!(cmd.args.is_empty() && cmd.envs.is_empty());
}

#[test]
fn exit_status_forwarding() {
    assert_eq!(exit_code(Some(3)), 3);
    assert_eq!(exit_code(None), 1);
    assert_eq!(exit_on_failure(true, Some(0)), None);
    assert_eq!(exit_on_failure(false, Some(101)), Some(101));
    assert_eq!(exit_on_failure(false, Some(-2)), Some(-2));
    assert_eq!(exit_on_failure(false, None), Some(1));
}

#[test]
fn sysroot_first_token() {
    assert_eq!(sysroot_candidate(b"/home/u/.rustup/toolchains/x\n"), b("/home/u/.rustup/toolchains/x"));
    assert_eq!(sysroot_candidate(b"/a b\tc"), b("/a"));
    assert_eq!(sysroot_candidate(b"/a\r\n"), b("/a"));
    assert_eq!(sysroot_candidate(b"/no-newline"), b("/no-newline"));
    assert_eq!(sysroot_candidate(b""), Vec::<u8>::new());
    assert_eq!(sysroot_candidate(b"\n/after"), Vec::<u8>::new());
    assert_eq!(sysroot_candidate(&[0x2f, 0xff, 0xfe, 0x0a]), vec![0x2f, 0xff, 0xfe]);
}

#[test]
fn sysroot_resolution() {
    let out = b"/opt/rust\n";
    assert_eq!(resolve_sysroot(Some(out), true).unwrap(), b("/opt/rust"));
    assert!(matches!(resolve_sysroot(None, true), Err(WrapperError::RustcNotRun)));
}

#[test]
fn sysroot_resolution_is_idempotent() {
    let out = b"/opt/rust\nextra\n";
    let first = resolve_sysroot(Some(out), true).unwrap();
    let second = resolve_sysroot(Some(out), true).unwrap();
    assert_eq!(first, second);
}

#[test]
fn sysroot_not_a_directory_fails_even_after_rustc_succeeded() {
    match resolve_sysroot(Some(b"/does/not/exist\n"), false) {
        Err(WrapperError::NotADirectory(p)) => assert_eq!(p, b("/does/not/exist")),
        _ => panic!("expected NotADirectory"),
    }
}

#[test]
fn toolchain_channel_selected() {
    let doc = "[toolchain]\nchannel = \"nightly-2022-08-08\"\ncomponents = [\"rustc-dev\"]\n";
    assert_eq!(select_toolchain(doc).unwrap(), Some("nightly-2022-08-08".to_string()));
    assert_eq!(select_toolchain("toolchain.channel = \"X\"\n").unwrap(), Some("X".to_string()));
    assert_eq!(select_toolchain("toolchain = { channel = \"1.70\" }\n").unwrap(), Some("1.70".to_string()));
}

#[test]
fn toolchain_channel_absent() {
    assert_eq!(select_toolchain("[toolchain]\ncomponents = []\n").unwrap(), None);
    assert_eq!(select_toolchain("").unwrap(), None);
    assert_eq!(select_toolchain("[package]\nname = \"x\"\n").unwrap(), None);
    assert_eq!(select_toolchain("[toolchain]\nchannel = 7\n").unwrap(), None);
}

#[test]
fn toolchain_document_invalid() {
    assert!(matches!(select_toolchain("[toolchain\nchannel = "), Err(WrapperError::Configuration(_))));
    assert!(matches!(select_toolchain("channel = = 1"), Err(WrapperError::Configuration(_))));
}

#[test]
fn cargo_wrapper_invocations() {
    let mut w = CargoWrapper::new(b("/bin/tool"), b("/opt/rust"));
    let cargo = WrappedCommand::new("cargo", None);
    let plain = w.run_cargo(&cargo);
    assert_eq!(plain.program, b("cargo"));
    assert!(plain.envs.is_empty());
    let wrapped = w.run_cargo_with_rustc_wrapper(&cargo);
    assert_eq!(
        envs_of(&wrapped.envs),
        vec![("RUSTC_WRAPPER", b("/bin/tool")), ("RUST_SYSROOT", b("/opt/rust"))]
    );
    w.set_rustup_toolchain("[toolchain]\nchannel = \"nightly\"\n").unwrap();
    let wrapped = w.run_cargo_with_rustc_wrapper(&cargo);
    assert_eq!(
        envs_of(&wrapped.envs),
        vec![
            ("RUSTUP_TOOLCHAIN", b("nightly")),
            ("RUSTC_WRAPPER", b("/bin/tool")),
            ("RUST_SYSROOT", b("/opt/rust")),
        ]
    );
    assert_eq!(envs_of(&w.run_cargo(&cargo).envs), vec![("RUSTUP_TOOLCHAIN", b("nightly"))]);
}

#[test]
fn cargo_wrapper_toolchain_kept_or_refused() {
    let mut w = CargoWrapper::new(b("/bin/tool"), b("/opt/rust"));
    w.set_rustup_toolchain("[toolchain]\nchannel = \"stable\"\n").unwrap();
    w.set_rustup_toolchain("[toolchain]\n").unwrap();
    assert_eq!(w.toolchain.as_ref().unwrap().value, "stable");
    assert!(w.set_rustup_toolchain("not [toml").is_err());
    assert_eq!(w.toolchain.as_ref().unwrap().value, "stable");
    w.set_toolchain_channel(Some("beta".to_string()));
    assert_eq!(w.toolchain.as_ref().unwrap().value, "beta");
    w.set_toolchain_channel(None);
    assert_eq!(w.toolchain.as_ref().unwrap().value, "beta");
}

fn rustc_env() -> Environment {
    let mut env = empty_env();
    env.sysroot = Some(b("/opt/rust"));
    env
}

#[test]
fn rustc_wrapper_needs_sysroot() {
    assert!(matches!(
        RustcWrapper::new(vec![b("lib.rs")], &empty_env()),
        Err(WrapperError::MissingBinding(EnvKey::Sysroot))
    ));
}

#[test]
fn rustc_wrapper_args() {
    let w = RustcWrapper::new(vec![b("--edition=2021"), b("src/lib.rs")], &rustc_env()).unwrap();
    assert_eq!(
        w.rustc_args_os(),
        vec![b("--edition=2021"), b("src/lib.rs"), b("--sysroot"), b("/opt/rust")]
    );
    let w = RustcWrapper::new(vec![b("src/lib.rs")], &rustc_env()).unwrap();
    assert_eq!(
        w.rustc_args().unwrap(),
        vec!["src/lib.rs".to_string(), "--sysroot".to_string(), "/opt/rust".to_string()]
    );
    let w = RustcWrapper::new(vec![b("a.rs"), vec![0xc3, 0x28], vec![0xff]], &rustc_env()).unwrap();
    match w.rustc_args() {
        Err(WrapperError::NonUtf8(raw)) => assert_eq!(raw, vec![0xc3, 0x28]),
        _ => panic!("expected a non-UTF-8 error"),
    }
    let mut env = rustc_env();
    env.sysroot = Some(vec![0x2f, 0x80]);
    let w = RustcWrapper::new(vec![b("a.rs")], &env).unwrap();
    assert!(matches!(w.rustc_args(), Err(WrapperError::NonUtf8(raw)) if raw == vec![0x2f, 0x80]));
}

#[test]
fn rustc_wrapper_unit_kind() {
    let mut env = rustc_env();
    let lib = RustcWrapper::new(vec![b("--crate-type"), b("lib"), b("src/lib.rs")], &env).unwrap();
    assert!(!lib.is_bin_crate());
    assert!(!lib.is_build_script());
    assert!(!lib.is_primary_package());
    let script =
        RustcWrapper::new(vec![b("--crate-name"), b("build_script_build"), b("--crate-type"), b("bin")], &env)
            .unwrap();
    assert!(script.is_bin_crate());
    assert!(script.is_build_script());
    assert_eq!(script.bin_crate_name(), None);
    env.cargo_bin_name = Some(b("tool"));
    env.cargo_primary_package = Some(b("1"));
    let bin = RustcWrapper::new(vec![b("--crate-type"), b("bin"), b("src/main.rs")], &env).unwrap();
    assert!(bin.is_bin_crate());
    assert!(!bin.is_build_script());
    assert!(bin.is_primary_package());
    assert_eq!(bin.bin_crate_name(), Some(b("tool")));
    let trailing = RustcWrapper::new(vec![b("bin"), b("--crate-type")], &rustc_env()).unwrap();
    assert!(!trailing.is_bin_crate());
}

#[test]
fn rustc_wrapper_runs_real_rustc() {
    let mut env = rustc_env();
    env.rustc = Some(b("/toolchain/bin/rustc"));
    let rustc = WrappedCommand::rustc(&env);
    let w = RustcWrapper::new(vec![b("src/lib.rs")], &env).unwrap();
    let inv = w.run_rustc(&rustc);
    assert_eq!(inv.program, b("/toolchain/bin/rustc"));
    assert_eq!(inv.args, vec![b("src/lib.rs"), b("--sysroot"), b("/opt/rust")]);
    assert!(inv.envs.is_empty());
}

#[test]
fn strings_from_utf8_converts() {
    assert_eq!(strings_from_utf8(&vec![b("a"), b("é")]).unwrap(), vec!["a".to_string(), "é".to_string()]);
    assert!(strings_from_utf8(&vec![]).unwrap().is_empty());
    assert!(matches!(strings_from_utf8(&vec![vec![0xfe]]), Err(WrapperError::NonUtf8(_))));
}

#[test]
fn role_selection() {
    let own = b("/home/u/.cargo/bin/cargo-tool");
    let mut env = empty_env();
    assert_eq!(invocation_role(&own, &env), Role::Cargo);
    env.rustc_wrapper = Some(b("/home/u/.cargo/bin/cargo-tool"));
    assert_eq!(invocation_role(&own, &env), Role::Rustc);
    env.rustc_wrapper = Some(b("/usr/bin/sccache"));
    assert_eq!(invocation_role(&own, &env), Role::Cargo);
    env.rustc_wrapper = Some(b("/home/u/.cargo/bin/cargo-tool/"));
    assert_eq!(invocation_role(&own, &env), Role::Cargo);
    env.rustc_wrapper = Some(Vec::new());
    assert_eq!(invocation_role(&own, &env), Role::Cargo);
}

#[test]
fn metadata_file_finalization() {
    let m = MetadataFile::open(b("out/meta.bc"), b".tmp0001").unwrap();
    assert_eq!(m.final_path, b("out/meta.bc"));
    assert_eq!(m.temp_path, b("out/meta.bc.tmp0001"));
    assert_eq!(m.close(42), Finalize::Promote);
    assert_eq!(m.close(1), Finalize::Promote);
    assert_eq!(m.close(0), Finalize::Discard);
}

#[test]
fn metadata_path_without_file_name() {
    assert!(matches!(MetadataFile::open(Vec::new(), b".tmp"), Err(WrapperError::NoFileName(p)) if p.is_empty()));
    assert!(matches!(MetadataFile::open(b("out/"), b".tmp"), Err(WrapperError::NoFileName(p)) if p == b("out/")));
    let m = MetadataFile::open(b("meta"), b".t").unwrap();
    assert_eq!(m.temp_path, b("meta.t"));
}

#[test]
fn require_names_the_missing_key() {
    let env = rustc_env();
    let s = EnvVar::require(&env, EnvKey::Sysroot).unwrap();
    assert_eq!(s.key, EnvKey::Sysroot);
    assert_eq!(s.value, b("/opt/rust"));
    assert!(matches!(
        EnvVar::require(&env, EnvKey::CargoBinName),
        Err(WrapperError::MissingBinding(EnvKey::CargoBinName))
    ));
}

#[test]
fn rustc_wrapper_with_sysroot_set() {
    let w = RustcWrapper::new(vec![b("--crate-name"), b("x")], &rustc_env()).unwrap();
    assert_eq!(w.sysroot.key, EnvKey::Sysroot);
    assert_eq!(w.sysroot.value, b("/opt/rust"));
    assert_eq!(w.args, vec![b("--crate-name"), b("x")]);
}

#[test]
fn sysroot_probe_invocation() {
    let mut env = empty_env();
    let probe = sysroot_probe(&WrappedCommand::rustc(&env));
    assert_eq!(probe.program, b("rustc"));
    assert_eq!(probe.args, vec![b("--print"), b("sysroot")]);
    assert!(probe.envs.is_empty());
    env.rustc = Some(b("/t/rustc"));
    assert_eq!(sysroot_probe(&WrappedCommand::rustc(&env)).program, b("/t/rustc"));
}

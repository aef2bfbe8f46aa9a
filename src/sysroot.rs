use vstd::prelude::*;
use vstd::string::StrSliceExecFns;
use vstd::utf8::encode_utf8;

use crate::command::{Invocation, WrappedCommand};
use crate::error::WrapperError;

verus! {

/// `u8::is_ascii_whitespace`: space, tab, line feed, form feed, carriage return.
pub open spec fn is_ascii_ws(b: u8) -> bool {
    b == 0x20u8 || b == 0x09u8 || b == 0x0au8 || b == 0x0cu8 || b == 0x0du8
}

fn ascii_ws(b: u8) -> (r: bool)
    ensures
        r == is_ascii_ws(b),
{
    b == 0x20u8 || b == 0x09u8 || b == 0x0au8 || b == 0x0cu8 || b == 0x0du8
}

/// `t` is the first whitespace-delimited token of `s`: the bytes of `s` up to
/// its first ASCII whitespace byte, or all of `s` where it has none. The
/// bytes need not be UTF-8.
pub open spec fn is_first_token(s: Seq<u8>, t: Seq<u8>) -> bool {
    &&& t.len() <= s.len()
    &&& t == s.subrange(0, t.len() as int)
    &&& forall|i: int| 0 <= i < t.len() ==> !is_ascii_ws(#[trigger] t[i])
    &&& (t.len() == s.len() || is_ascii_ws(s[t.len() as int]))
}

/// A byte string has exactly one first token.
pub proof fn first_token_unique(s: Seq<u8>, t1: Seq<u8>, t2: Seq<u8>)
    requires
        is_first_token(s, t1),
        is_first_token(s, t2),
    ensures
        t1 == t2,
{
    if t1.len() < t2.len() {
        assert(t2[t1.len() as int] == s[t1.len() as int]);
        assert(!is_ascii_ws(t2[t1.len() as int]));
    } else if t2.len() < t1.len() {
        assert(t1[t2.len() as int] == s[t2.len() as int]);
        assert(!is_ascii_ws(t1[t2.len() as int]));
    }
}

/// The invocation that asks `rustc` for its sysroot: `rustc --print sysroot`.
pub fn sysroot_probe(rustc: &WrappedCommand) -> (r: Invocation)
    ensures
        r.program@ == rustc.path@,
        r.view_args() == seq![encode_utf8("--print"@), encode_utf8("sysroot"@)],
        r.view_envs().len() == 0,
{
    let mut cmd = rustc.command();
    cmd.arg("--print".as_bytes_vec());
    cmd.arg("sysroot".as_bytes_vec());
    proof {
        assert(cmd.view_args() =~= seq![encode_utf8("--print"@), encode_utf8("sysroot"@)]);
    }
    cmd
}

/// The path that `rustc --print sysroot` reports in `stdout`: its first
/// whitespace-delimited token.
pub fn sysroot_candidate(stdout: &[u8]) -> (r: Vec<u8>)
    ensures
        is_first_token(stdout@, r@),
{
    let mut t: Vec<u8> = Vec::new();
    let mut i: usize = 0;
    while i < stdout.len() && !ascii_ws(stdout[i])
        invariant
            0 <= i <= stdout@.len(),
            t@ == stdout@.subrange(0, i as int),
            forall|j: int| 0 <= j < i ==> !is_ascii_ws(#[trigger] stdout@[j]),
        decreases stdout@.len() - i,
    {
        t.push(stdout[i]);
        i = i + 1;
        assert(t@ =~= stdout@.subrange(0, i as int));
    }
    t
}

/// Resolves the sysroot from what `rustc --print sysroot` printed (`stdout`,
/// `None` where `rustc` could not be run). `candidate_is_dir` tells whether
/// the path it printed, [`sysroot_candidate`] of the same output, is an
/// existing directory. A path that is not one is refused here, before
/// `rustc` is ever run with it.
pub fn resolve_sysroot(stdout: Option<&[u8]>, candidate_is_dir: bool) -> (r: Result<
    Vec<u8>,
    WrapperError,
>)
    ensures
        stdout.is_none() ==> r matches Err(WrapperError::RustcNotRun),
        stdout matches Some(s) ==> match r {
            Ok(p) => candidate_is_dir && is_first_token(s@, p@),
            Err(WrapperError::NotADirectory(p)) => !candidate_is_dir && is_first_token(s@, p@),
            Err(_) => false,
        },
{
    match stdout {
        None => Err(WrapperError::RustcNotRun),
        Some(s) => {
            let path = sysroot_candidate(s);
            if candidate_is_dir {
                Ok(path)
            } else {
                Err(WrapperError::NotADirectory(path))
            }
        },
    }
}

/// Resolving the sysroot twice in the same environment, where `rustc` prints
/// the same output and the file system answers the same, gives the same path.
/// (The two paths are those of two `Ok` results of [`resolve_sysroot`] on
/// output `s`.)
pub proof fn resolve_sysroot_idempotent(s: Seq<u8>, p1: Seq<u8>, p2: Seq<u8>)
    requires
        is_first_token(s, p1),
        is_first_token(s, p2),
    ensures
        p1 == p2,
{
    first_token_unique(s, p1, p2);
}

} // verus!

use vstd::prelude::*;

use crate::env_var::copy_bytes;
use crate::error::WrapperError;

verus! {

/// `/`, the path separator.
pub open spec fn is_separator(b: u8) -> bool {
    b == 0x2fu8
}

/// `p` names a file: it is not empty and does not end in a separator.
pub open spec fn has_file_name(p: Seq<u8>) -> bool {
    p.len() > 0 && !is_separator(p.last())
}

/// What closing a metadata file does with its temporary file.
#[derive(Clone, Copy, Debug, PartialEq, Eq, Structural)]
pub enum Finalize {
    /// Rename the temporary file over the final path.
    Promote,
    /// Remove the temporary file; the final path stays as it was.
    Discard,
}

/// A metadata file being written: the path it ends up at, and the temporary
/// file beside it that receives what is written until it is closed.
pub struct MetadataFile {
    pub final_path: Vec<u8>,
    pub temp_path: Vec<u8>,
}

/// The temporary path for `final_path`: its own path followed by `suffix`,
/// so that it lies in the same directory, on the same file system, and its
/// name starts with the final file's name.
pub open spec fn temp_path_of(final_path: Seq<u8>, suffix: Seq<u8>) -> Seq<u8> {
    final_path + suffix
}

/// What closing gives: promote exactly when something was written.
pub open spec fn finalize_for(written: nat) -> Finalize {
    if written > 0 {
        Finalize::Promote
    } else {
        Finalize::Discard
    }
}

/// The files at `fs` (a map from path to contents) after `action` on the
/// temporary file `temp` of the final path `dest`.
pub open spec fn apply_finalize(
    fs: Map<Seq<u8>, Seq<u8>>,
    action: Finalize,
    dest: Seq<u8>,
    temp: Seq<u8>,
) -> Map<Seq<u8>, Seq<u8>> {
    match action {
        Finalize::Promote => fs.remove(temp).insert(dest, fs[temp]),
        Finalize::Discard => fs.remove(temp),
    }
}

impl MetadataFile {
    /// The metadata file that ends up at `final_path`, written meanwhile to
    /// a temporary file whose name is the final one followed by `suffix`.
    /// The suffix tells the temporary file apart: it is not empty and names
    /// no directory. A final path that names no file is an error.
    pub fn open(final_path: Vec<u8>, suffix: &[u8]) -> (r: Result<MetadataFile, WrapperError>)
        requires
            suffix@.len() > 0,
            forall|i: int| 0 <= i < suffix@.len() ==> !is_separator(#[trigger] suffix@[i]),
            final_path@.len() + suffix@.len() <= usize::MAX,
        ensures
            !has_file_name(final_path@) ==> (r matches Err(WrapperError::NoFileName(p)) && p@
                == final_path@),
            has_file_name(final_path@) ==> (r matches Ok(m) && m.final_path@ == final_path@
                && m.temp_path@ == temp_path_of(final_path@, suffix@)),
    {
        let n = final_path.len();
        if n == 0 || final_path[n - 1] == 0x2fu8 {
            return Err(WrapperError::NoFileName(final_path));
        }
        let mut temp_path = copy_bytes(&final_path);
        let mut i: usize = 0;
        while i < suffix.len()
            invariant
                0 <= i <= suffix@.len(),
                temp_path@ == final_path@ + suffix@.subrange(0, i as int),
            decreases suffix@.len() - i,
        {
            temp_path.push(suffix[i]);
            i = i + 1;
            assert(temp_path@ =~= final_path@ + suffix@.subrange(0, i as int));
        }
        assert(suffix@.subrange(0, suffix@.len() as int) =~= suffix@);
        Ok(MetadataFile { final_path, temp_path })
    }

    /// What closing does, where `written` bytes went to the temporary file:
    /// it is promoted to the final path where that is more than none, and
    /// discarded otherwise, so that a unit with nothing to record leaves an
    /// earlier file in place rather than emptying it.
    pub fn close(&self, written: u64) -> (r: Finalize)
        ensures
            r == finalize_for(written as nat),
    {
        if written > 0 {
            Finalize::Promote
        } else {
            Finalize::Discard
        }
    }
}

/// The temporary file lies beside the final file, in its directory: the two
/// paths agree up to the final path's end, the final path's last byte is no
/// separator, and past it the temporary path holds none. So both have their
/// last separator at the same place, and the temporary file's name starts
/// with the final file's name.
pub proof fn temp_path_is_sibling(final_path: Seq<u8>, suffix: Seq<u8>)
    requires
        has_file_name(final_path),
        forall|i: int| 0 <= i < suffix.len() ==> !is_separator(#[trigger] suffix[i]),
    ensures
        temp_path_of(final_path, suffix).subrange(0, final_path.len() as int) == final_path,
        forall|i: int|
            final_path.len() - 1 <= i < temp_path_of(final_path, suffix).len() ==> !is_separator(
                #[trigger] temp_path_of(final_path, suffix)[i],
            ),
{
    assert(temp_path_of(final_path, suffix).subrange(0, final_path.len() as int) =~= final_path);
    assert forall|i: int|
        final_path.len() - 1 <= i < temp_path_of(final_path, suffix).len() implies !is_separator(
        #[trigger] temp_path_of(final_path, suffix)[i],
    ) by {
        if i < final_path.len() {
            assert(temp_path_of(final_path, suffix)[i] == final_path.last());
        } else {
            assert(temp_path_of(final_path, suffix)[i] == suffix[i - final_path.len()]);
        }
    }
}

/// Closing a metadata file whose temporary file `temp` holds the bytes
/// written: where there are any, the final path `dest` holds exactly those
/// bytes afterwards; where there are none, `dest` is as it was before,
/// absent included. Either way the temporary file is gone, and no other
/// path changes.
pub proof fn close_leaves_final_path(fs: Map<Seq<u8>, Seq<u8>>, dest: Seq<u8>, temp: Seq<u8>)
    requires
        fs.contains_key(temp),
        dest != temp,
    ensures
        ({
            let after = apply_finalize(fs, finalize_for(fs[temp].len()), dest, temp);
            &&& !after.contains_key(temp)
            &&& fs[temp].len() > 0 ==> after.contains_key(dest) && after[dest] == fs[temp]
            &&& fs[temp].len() == 0 ==> (after.contains_key(dest) == fs.contains_key(dest)
                && (fs.contains_key(dest) ==> after[dest] == fs[dest]))
            &&& forall|p: Seq<u8>|
                p != dest && p != temp ==> (#[trigger] after.contains_key(p) == fs.contains_key(p)
                    && (fs.contains_key(p) ==> after[p] == fs[p]))
        }),
{
}

} // verus!

use vstd::prelude::*;

use crate::error::WrapperError;

verus! {

#[verifier::external_type_specification]
#[verifier::external_body]
pub struct ExTomlError(toml_edit::TomlError);

/// Whether `text` parses as a TOML document.
pub uninterp spec fn is_toml_document(text: Seq<char>) -> bool;

/// The string at `toolchain.channel` in the TOML document `text`, where
/// there is one.
pub uninterp spec fn toolchain_channel_in(text: Seq<char>) -> Option<Seq<char>>;

pub open spec fn opt_chars(o: Option<String>) -> Option<Seq<char>> {
    match o {
        Some(s) => Some(s@),
        None => None,
    }
}

/// Relies on `toml_edit::Document`'s `FromStr`, which fails exactly on text
/// that is not TOML, and on `Table::get`, `Item::get` and `Item::as_str`,
/// which read the string at `toolchain.channel` (`None` where a key is
/// missing or the value is not a string).
#[verifier::external_body]
fn read_toolchain_channel(text: &str) -> (r: Result<Option<String>, toml_edit::TomlError>)
    ensures
        r.is_ok() == is_toml_document(text@),
        r matches Ok(c) ==> opt_chars(c) == toolchain_channel_in(text@),
{
    let doc = text.parse::<toml_edit::Document>()?;
    let channel = doc.get("toolchain").and_then(|t| t.get("channel"));
    Ok(channel.and_then(toml_edit::Item::as_str).map(str::to_owned))
}

/// The toolchain channel that a `rust-toolchain.toml` document selects: the
/// string at `toolchain.channel`, or `None` where there is none. Text that is
/// not TOML is a configuration error.
pub fn select_toolchain(text: &str) -> (r: Result<Option<String>, WrapperError>)
    ensures
        r.is_ok() == is_toml_document(text@),
        r matches Ok(c) ==> opt_chars(c) == toolchain_channel_in(text@),
        r matches Err(e) ==> e is Configuration,
{
    match read_toolchain_channel(text) {
        Ok(c) => Ok(c),
        Err(e) => Err(WrapperError::Configuration(e)),
    }
}

} // verus!

//! What this crate takes from the standard library without proof.
//!
//! Verus knows nothing of `std::path::Path` and has no contract for the
//! checked conversion from bytes to `str`. The few facts that the rest of
//! the crate builds on are stated here, each beside the function it is a
//! fact about, and nowhere else.
use std::path::Path;
use vstd::prelude::*;
use vstd::string::StringSliceAdditionalSpecFns;
use vstd::utf8::valid_utf8;

verus! {

#[verifier::external_type_specification]
#[verifier::external_body]
pub struct ExPath(Path);

#[verifier::external_type_specification]
#[verifier::external_body]
pub struct ExUtf8Error(core::str::Utf8Error);

/// The text that a path holds: `Some` of its characters where the path is
/// valid Unicode, `None` where it is not.
pub uninterp spec fn path_text(path: &Path) -> Option<Seq<char>>;

/// Whether a path is absolute by the rules of the platform that the crate
/// was built for.
pub uninterp spec fn path_is_absolute(path: &Path) -> bool;

/// `Path::is_absolute`. Nothing is claimed of the answer but that it is the
/// one that this path always gets.
#[verifier::external_body]
pub(crate) fn is_absolute(path: &Path) -> (absolute: bool)
    ensures
        absolute == path_is_absolute(path),
{
    path.is_absolute()
}

/// `Path::to_str`: the path as a string slice if it is valid Unicode. The
/// slice, where there is one, holds the path's text.
#[verifier::external_body]
pub(crate) fn to_str<'a>(path: &'a Path) -> (text: Option<&'a str>)
    ensures
        match text {
            Some(s) => path_text(path) == Some(s@),
            None => path_text(path) is None,
        },
{
    path.to_str()
}

/// `Path::new` on a string slice: the slice seen as a path, at no cost. The
/// path's text is the slice.
#[verifier::external_body]
pub(crate) fn as_path<'a>(text: &'a str) -> (path: &'a Path)
    ensures
        path_text(path) == Some(text@),
{
    Path::new(text)
}

/// `core::str::from_utf8` succeeds on exactly the byte slices that are valid
/// UTF-8, and the string slice it then returns is made of the same bytes.
pub assume_specification[ core::str::from_utf8 ](bytes: &[u8]) -> (text: Result<
    &str,
    core::str::Utf8Error,
>)
    ensures
        text is Ok <==> valid_utf8(bytes@),
        text matches Ok(s) ==> s.spec_bytes() == bytes@,
;

} // verus!

//! Where the plaintext goes: beside the input, under the input's file name
//! with a fixed suffix appended.

use crate::error::DecryptError;
use std::path::Path;
use vstd::prelude::*;

verus! {

/// The name of the output file for an input file's name.
pub open spec fn output_name(file_name: Seq<char>) -> Seq<char> {
    file_name + ".clear"@
}

/// The final component of a path, if it has one: the file name in the path
/// of a file, the directory's name in the path of a directory, and nothing
/// where the path is empty, is a root or ends in `..`. It is read off the
/// path's text; nothing on disk is looked at.
pub uninterp spec fn path_file_name(path: Seq<char>) -> Option<Seq<char>>;

/// A path with its final component replaced by `name`: a sibling of the
/// path, in the same directory. It is built from the two texts alone.
pub uninterp spec fn path_with_file_name(path: Seq<char>, name: Seq<char>) -> Seq<char>;

/// The characters of a name that may be missing.
pub open spec fn text_of(name: Option<String>) -> Option<Seq<char>> {
    match name {
        Some(text) => Some(text@),
        None => None,
    }
}

/// The output path for an input path: the input's final component gives the
/// output's name, which takes its place; a path without one has no output.
pub open spec fn output_path(input: Seq<char>) -> Result<Seq<char>, DecryptError> {
    match path_file_name(input) {
        None => Err(DecryptError::InvalidPath),
        Some(file_name) => Ok(path_with_file_name(input, output_name(file_name))),
    }
}

/// Calls `std::path::Path::file_name`. Trusted: what comes back is the
/// final component of `path`, or nothing where it has none, and depends on
/// the path's text alone. Which text that is, is not claimed.
#[verifier::external_body]
fn final_component(path: &str) -> (name: Option<String>)
    ensures
        text_of(name) == path_file_name(path@),
{
    match Path::new(path).file_name() {
        Some(name) => Some(name.to_string_lossy().into_owned()),
        None => None,
    }
}

/// Calls `std::path::Path::with_file_name`. Trusted: what comes back is
/// `path` with its final component replaced by `name`, and depends on the
/// two texts alone. Which text that is, is not claimed.
#[verifier::external_body]
fn with_final_component(path: &str, name: &str) -> (replaced: String)
    ensures
        replaced@ == path_with_file_name(path@, name@),
{
    Path::new(path).with_file_name(name).to_string_lossy().into_owned()
}

/// The output file's name: the input file's name with `.clear` appended.
pub fn output_file_name(file_name: &str) -> (name: String)
    ensures
        name@ == output_name(file_name@),
{
    file_name.to_owned().concat(".clear")
}

/// The output file's name for what a path gave as its final component. A
/// path without one, such as the root or the empty path, is refused.
pub fn output_name_for(file_name: Option<String>) -> (outcome: Result<String, DecryptError>)
    ensures
        file_name is None ==> outcome == Err::<String, DecryptError>(DecryptError::InvalidPath),
        file_name is Some ==> outcome is Ok && outcome->Ok_0@ == output_name(file_name->Some_0@),
{
    match file_name {
        None => Err(DecryptError::InvalidPath),
        Some(name) => Ok(output_file_name(name.as_str())),
    }
}

/// The output path for an input path: the same directory, and the input's
/// file name with `.clear` appended. Fails, as an invalid path, exactly when
/// the input has no file name to start from.
pub fn derive_output_path(input: &str) -> (outcome: Result<String, DecryptError>)
    ensures
        match output_path(input@) {
            Ok(path) => outcome is Ok && outcome->Ok_0@ == path,
            Err(e) => outcome == Err::<String, DecryptError>(e),
        },
{
    match output_name_for(final_component(input)) {
        Err(e) => Err(e),
        Ok(name) => Ok(with_final_component(input, name.as_str())),
    }
}

} // verus!

//! File names as `std::path` holds them, and what this library assumes of it.

use vstd::prelude::*;
use crate::error::{shape_fault, CurseError};
use crate::json::{value_as_str, value_from_string, Doc};
use crate::record::Record;
use std::path::{Path, PathBuf};

verus! {

/// `std::path::PathBuf`, an owned file name. Opaque: its text is `path_text`.
#[verifier::external_type_specification]
#[verifier::external_body]
pub struct ExPathBuf(PathBuf);

/// `std::path::Path`, a borrowed file name. Opaque: its text is
/// `path_slice_text`.
#[verifier::external_type_specification]
#[verifier::external_body]
pub struct ExPath(Path);

/// The text of an owned file name, where the name is valid Unicode, and `None`
/// where it is not.
pub uninterp spec fn path_text(p: PathBuf) -> Option<Seq<char>>;

/// The text of a borrowed file name, where the name is valid Unicode, and
/// `None` where it is not.
pub uninterp spec fn path_slice_text(p: &Path) -> Option<Seq<char>>;

/// `PathBuf::from` at `String`. Assumed: the file name has exactly the
/// string's text.
#[verifier::external_body]
pub(crate) fn path_from_string(s: String) -> (p: PathBuf)
    ensures
        path_text(p) == Some(s@),
{
    PathBuf::from(s)
}

/// `Path::to_str`. Assumed: the name's text where the name is valid Unicode,
/// and `None` where it is not.
#[verifier::external_body]
pub(crate) fn path_to_str(p: &PathBuf) -> (r: Option<&str>)
    ensures
        match path_text(*p) {
            Some(t) => r matches Some(s) && s@ == t,
            None => r is None,
        },
{
    p.to_str()
}

/// `PathBuf::as_path`. Assumed: the borrowed name has the owned name's text.
#[verifier::external_body]
pub(crate) fn path_as_path(p: &PathBuf) -> (r: &Path)
    ensures
        path_slice_text(r) == path_text(*p),
{
    p.as_path()
}

/// `PathBuf::clone`. Assumed: the copy has the same text.
pub assume_specification[ <PathBuf as Clone>::clone ](p: &PathBuf) -> (r: PathBuf)
    ensures
        path_text(r) == path_text(*p),
;

impl Record for PathBuf {
    type Model = Option<Seq<char>>;

    open spec fn model(&self) -> Option<Seq<char>> {
        path_text(*self)
    }

    /// A string; what it names always has a text.
    open spec fn decoded(doc: Doc) -> Option<Option<Seq<char>>> {
        match doc {
            Doc::Text(t) => Some(Some(t)),
            _ => None,
        }
    }

    /// The name's text as a string; a name that is no valid Unicode has no
    /// document.
    open spec fn encoded(m: Option<Seq<char>>) -> Option<Doc> {
        match m {
            Some(t) => Some(Doc::Text(t)),
            None => None,
        }
    }

    fn from_value(v: &serde_json::Value) -> (r: Result<PathBuf, CurseError>) {
        match value_as_str(v) {
            Some(s) => Ok(path_from_string(s.to_owned())),
            None => Err(shape_fault("expected a string")),
        }
    }

    fn to_value(&self) -> (r: Option<serde_json::Value>) {
        match path_to_str(self) {
            Some(s) => Some(value_from_string(s.to_owned())),
            None => None,
        }
    }

    proof fn lemma_round_trip(m: Option<Seq<char>>) {
    }
}

} // verus!

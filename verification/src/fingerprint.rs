//! The answer to a fingerprint lookup, and the file it stands for.

use vstd::prelude::*;
use crate::error::CurseError;
use crate::file::{CurseFile, FileModel};
use crate::json::{members_new, no_members, value_from_members, Doc};
use crate::record::{object_of, read_required, required, with_member, write_member, Record};

verus! {

/// What a `FingerPrintInfo` is.
pub struct MatchModel {
    pub id: usize,
    pub file: FileModel,
}

/// What a `CurseFingerPrint` is. The matches stand in the order in which the
/// service sent them.
pub struct FingerPrintModel {
    pub exact_matches: Seq<MatchModel>,
}

/// One file of the service's catalog whose content matches a local file.
#[derive(Debug, Clone, PartialEq, Eq)]
pub struct FingerPrintInfo {
    pub id: usize,
    pub file: CurseFile,
}

impl Record for FingerPrintInfo {
    type Model = MatchModel;

    open spec fn model(&self) -> MatchModel {
        MatchModel { id: self.id, file: self.file.model() }
    }

    /// An object with a number under `id` and a file under `file`.
    open spec fn decoded(doc: Doc) -> Option<MatchModel> {
        match (required::<usize>(doc, "id"@), required::<CurseFile>(doc, "file"@)) {
            (Some(id), Some(file)) => Some(MatchModel { id, file }),
            _ => None,
        }
    }

    open spec fn encoded(m: MatchModel) -> Option<Doc> {
        let ms = Some(no_members());
        let ms = with_member::<usize>(ms, "id"@, m.id);
        let ms = with_member::<CurseFile>(ms, "file"@, m.file);
        object_of(ms)
    }

    fn from_value(v: &serde_json::Value) -> (r: Result<FingerPrintInfo, CurseError>) {
        let id = read_required::<usize>(v, "id")?;
        let file = read_required::<CurseFile>(v, "file")?;
        Ok(FingerPrintInfo { id, file })
    }

    fn to_value(&self) -> (r: Option<serde_json::Value>) {
        let ms = members_new();
        let ms = write_member(ms, "id", &self.id)?;
        let ms = write_member(ms, "file", &self.file)?;
        Some(value_from_members(ms))
    }

    proof fn lemma_round_trip(m: MatchModel) {
        reveal_strlit("id");
        reveal_strlit("file");
        assert("id"@.len() == 2 && "file"@.len() == 4);
        CurseFile::lemma_round_trip(m.file);
    }
}

/// What a fingerprint lookup found. The service may send several matches; the
/// first one alone counts.
#[derive(Clone, Debug, PartialEq, Eq)]
pub struct CurseFingerPrint {
    exact_matches: Vec<FingerPrintInfo>,
}

impl CurseFingerPrint {
    pub fn new(exact_matches: Vec<FingerPrintInfo>) -> (r: CurseFingerPrint)
        ensures
            r.model() == (FingerPrintModel { exact_matches: exact_matches.model() }),
    {
        CurseFingerPrint { exact_matches }
    }

    /// The matches, in the order in which the service sent them.
    pub fn get_matches(&self) -> (r: &Vec<FingerPrintInfo>)
        ensures
            r.model() == self.model().exact_matches,
    {
        &self.exact_matches
    }

    /// The file of the first match, for a lookup that has one.
    pub fn get_file(&self) -> (r: &CurseFile)
        requires
            self.model().exact_matches.len() > 0,
        ensures
            r.model() == self.model().exact_matches[0].file,
    {
        &self.exact_matches[0].file
    }

    /// The file of the first match, or `EmptyResult` where the lookup found
    /// nothing.
    pub fn find_file(&self) -> (r: Result<&CurseFile, CurseError>)
        ensures
            match r {
                Ok(file) => self.model().exact_matches.len() > 0 && file.model()
                    == self.model().exact_matches[0].file,
                Err(e) => self.model().exact_matches.len() == 0 && e is EmptyResult,
            },
    {
        if self.exact_matches.len() > 0 {
            Ok(self.get_file())
        } else {
            Err(CurseError::EmptyResult)
        }
    }
}

impl Record for CurseFingerPrint {
    type Model = FingerPrintModel;

    closed spec fn model(&self) -> FingerPrintModel {
        FingerPrintModel { exact_matches: self.exact_matches.model() }
    }

    /// An object with an array of matches under `exactMatches`.
    open spec fn decoded(doc: Doc) -> Option<FingerPrintModel> {
        match required::<Vec<FingerPrintInfo>>(doc, "exactMatches"@) {
            Some(exact_matches) => Some(FingerPrintModel { exact_matches }),
            None => None,
        }
    }

    open spec fn encoded(m: FingerPrintModel) -> Option<Doc> {
        let ms = Some(no_members());
        let ms = with_member::<Vec<FingerPrintInfo>>(ms, "exactMatches"@, m.exact_matches);
        object_of(ms)
    }

    fn from_value(v: &serde_json::Value) -> (r: Result<CurseFingerPrint, CurseError>) {
        let exact_matches = read_required::<Vec<FingerPrintInfo>>(v, "exactMatches")?;
        Ok(CurseFingerPrint { exact_matches })
    }

    fn to_value(&self) -> (r: Option<serde_json::Value>) {
        let ms = members_new();
        let ms = write_member(ms, "exactMatches", &self.exact_matches)?;
        Some(value_from_members(ms))
    }

    proof fn lemma_round_trip(m: FingerPrintModel) {
        <Vec<FingerPrintInfo> as Record>::lemma_round_trip(m.exact_matches);
    }
}

} // verus!

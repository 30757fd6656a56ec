//! The local manifest of a mod pack.

use vstd::prelude::*;
use crate::error::CurseError;
use crate::json::{members_new, no_members, value_from_members, Doc};
use crate::record::{
    member, object_of, read_required, required, with_member, write_member, Record,
};

verus! {

/// What a `CursePackFiles` is: one file of one mod.
pub struct PackFilesModel {
    pub project_id: usize,
    pub file_id: usize,
}

/// What a `CursePack` is. The files stand in the order of the manifest.
pub struct PackModel {
    pub name: Seq<char>,
    pub author: Seq<char>,
    pub files: Seq<PackFilesModel>,
}

/// One entry of a pack's file list: a file of a mod, by the two numbers under
/// which the service knows it. Two entries may name the same file.
#[derive(Debug, Clone, PartialEq, Eq)]
pub struct CursePackFiles {
    project_id: usize,
    file_id: usize,
}

impl CursePackFiles {
    pub fn new(project_id: usize, file_id: usize) -> (r: CursePackFiles)
        ensures
            r.model() == (PackFilesModel { project_id, file_id }),
    {
        CursePackFiles { project_id, file_id }
    }

    pub fn get_project_id(&self) -> (r: usize)
        ensures
            r == self.model().project_id,
    {
        self.project_id
    }

    pub fn get_file_id(&self) -> (r: usize)
        ensures
            r == self.model().file_id,
    {
        self.file_id
    }
}

impl Record for CursePackFiles {
    type Model = PackFilesModel;

    closed spec fn model(&self) -> PackFilesModel {
        PackFilesModel { project_id: self.project_id, file_id: self.file_id }
    }

    /// An object with the numbers under `projectID` and `fileID`.
    open spec fn decoded(doc: Doc) -> Option<PackFilesModel> {
        match (required::<usize>(doc, "projectID"@), required::<usize>(doc, "fileID"@)) {
            (Some(project_id), Some(file_id)) => Some(PackFilesModel { project_id, file_id }),
            _ => None,
        }
    }

    open spec fn encoded(m: PackFilesModel) -> Option<Doc> {
        let ms = Some(no_members());
        let ms = with_member::<usize>(ms, "projectID"@, m.project_id);
        let ms = with_member::<usize>(ms, "fileID"@, m.file_id);
        object_of(ms)
    }

    fn from_value(v: &serde_json::Value) -> (r: Result<CursePackFiles, CurseError>) {
        let project_id = read_required::<usize>(v, "projectID")?;
        let file_id = read_required::<usize>(v, "fileID")?;
        Ok(CursePackFiles { project_id, file_id })
    }

    fn to_value(&self) -> (r: Option<serde_json::Value>) {
        let ms = members_new();
        let ms = write_member(ms, "projectID", &self.project_id)?;
        let ms = write_member(ms, "fileID", &self.file_id)?;
        Some(value_from_members(ms))
    }

    proof fn lemma_round_trip(m: PackFilesModel) {
        reveal_strlit("projectID");
        reveal_strlit("fileID");
        assert("projectID"@.len() == 9 && "fileID"@.len() == 6);
    }
}

/// A mod pack as its manifest describes it.
#[derive(Debug, Clone, PartialEq, Eq)]
pub struct CursePack {
    pub name: String,
    pub author: String,
    files: Vec<CursePackFiles>,
}

impl CursePack {
    pub fn new(name: String, author: String, files: Vec<CursePackFiles>) -> (r: CursePack)
        ensures
            r.model() == (PackModel { name: name@, author: author@, files: files.model() }),
    {
        CursePack { name, author, files }
    }

    /// The files of the pack, in the order of the manifest.
    pub fn get_files(&self) -> (r: &Vec<CursePackFiles>)
        ensures
            r.model() == self.model().files,
    {
        &self.files
    }
}

impl Record for CursePack {
    type Model = PackModel;

    closed spec fn model(&self) -> PackModel {
        PackModel { name: self.name@, author: self.author@, files: self.files.model() }
    }

    /// An object with strings under `name` and `author` and an array of
    /// entries under `files`.
    open spec fn decoded(doc: Doc) -> Option<PackModel> {
        match (
            required::<String>(doc, "name"@),
            required::<String>(doc, "author"@),
            required::<Vec<CursePackFiles>>(doc, "files"@),
        ) {
            (Some(name), Some(author), Some(files)) => Some(PackModel { name, author, files }),
            _ => None,
        }
    }

    open spec fn encoded(m: PackModel) -> Option<Doc> {
        let ms = Some(no_members());
        let ms = with_member::<String>(ms, "name"@, m.name);
        let ms = with_member::<String>(ms, "author"@, m.author);
        let ms = with_member::<Vec<CursePackFiles>>(ms, "files"@, m.files);
        object_of(ms)
    }

    fn from_value(v: &serde_json::Value) -> (r: Result<CursePack, CurseError>) {
        let name = read_required::<String>(v, "name")?;
        let author = read_required::<String>(v, "author")?;
        let files = read_required::<Vec<CursePackFiles>>(v, "files")?;
        Ok(CursePack { name, author, files })
    }

    fn to_value(&self) -> (r: Option<serde_json::Value>) {
        let ms = members_new();
        let ms = write_member(ms, "name", &self.name)?;
        let ms = write_member(ms, "author", &self.author)?;
        let ms = write_member(ms, "files", &self.files)?;
        Some(value_from_members(ms))
    }

    proof fn lemma_round_trip(m: PackModel) {
        reveal_strlit("name");
        reveal_strlit("author");
        reveal_strlit("files");
        assert("name"@.len() == 4 && "author"@.len() == 6 && "files"@.len() == 5);
        <Vec<CursePackFiles> as Record>::lemma_round_trip(m.files);
    }
}

/// A pack read from a manifest has the manifest's entries, one for one and in
/// the manifest's order: the entry at each place is what the item at that place
/// holds.
pub proof fn lemma_files_keep_order(doc: Doc, items: Seq<Doc>)
    requires
        member(doc, "files"@) == Some(Doc::List(items)),
    ensures
        CursePack::decoded(doc) matches Some(m) ==> m.files.len() == items.len() && forall|i: int|
            0 <= i < items.len() ==> CursePackFiles::decoded(items[i]) == Some(#[trigger] m.files[i]),
{
}

/// The document written for a pack lists the pack's entries under `files`, one
/// for one and in the pack's order.
pub proof fn lemma_files_written_in_order(m: PackModel)
    ensures
        CursePack::encoded(m) matches Some(doc) && member(doc, "files"@) matches Some(
            Doc::List(items),
        ) && items.len() == m.files.len() && forall|i: int|
            0 <= i < items.len() ==> CursePackFiles::encoded(m.files[i]) == Some(#[trigger] items[i]),
{
}

} // verus!

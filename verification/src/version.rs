//! The versions of a mod, each with its latest files.

use vstd::prelude::*;
use crate::error::CurseError;
use crate::file::{CurseFile, FileModel};
use crate::json::{members_new, no_members, value_from_members, Doc};
use crate::record::{object_of, read_required, required, with_member, write_member, Record};

verus! {

/// What a `CurseVersion` is.
pub struct VersionModel {
    pub id: usize,
    pub game_id: usize,
    pub name: Seq<char>,
    pub slug: Seq<char>,
    pub download_count: usize,
    pub latest_files: Seq<FileModel>,
}

/// What a `CurseVersions` is.
pub struct VersionsModel {
    pub data: Seq<VersionModel>,
}

/// One version of a mod.
#[derive(Clone, Debug, PartialEq, Eq)]
pub struct CurseVersion {
    pub id: usize,
    pub game_id: usize,
    pub name: String,
    pub slug: String,
    pub download_count: usize,
    pub latest_files: Vec<CurseFile>,
}

impl Record for CurseVersion {
    type Model = VersionModel;

    open spec fn model(&self) -> VersionModel {
        VersionModel {
            id: self.id,
            game_id: self.game_id,
            name: self.name@,
            slug: self.slug@,
            download_count: self.download_count,
            latest_files: self.latest_files.model(),
        }
    }

    /// An object with numbers under `id`, `gameId` and `downloadCount`,
    /// strings under `name` and `slug`, and an array of files under
    /// `latestFiles`.
    open spec fn decoded(doc: Doc) -> Option<VersionModel> {
        match (
            required::<usize>(doc, "id"@),
            required::<usize>(doc, "gameId"@),
            required::<String>(doc, "name"@),
            required::<String>(doc, "slug"@),
            required::<usize>(doc, "downloadCount"@),
            required::<Vec<CurseFile>>(doc, "latestFiles"@),
        ) {
            (
                Some(id),
                Some(game_id),
                Some(name),
                Some(slug),
                Some(download_count),
                Some(latest_files),
            ) => Some(VersionModel { id, game_id, name, slug, download_count, latest_files }),
            _ => None,
        }
    }

    open spec fn encoded(m: VersionModel) -> Option<Doc> {
        let ms = Some(no_members());
        let ms = with_member::<usize>(ms, "id"@, m.id);
        let ms = with_member::<usize>(ms, "gameId"@, m.game_id);
        let ms = with_member::<String>(ms, "name"@, m.name);
        let ms = with_member::<String>(ms, "slug"@, m.slug);
        let ms = with_member::<usize>(ms, "downloadCount"@, m.download_count);
        let ms = with_member::<Vec<CurseFile>>(ms, "latestFiles"@, m.latest_files);
        object_of(ms)
    }

    fn from_value(v: &serde_json::Value) -> (r: Result<CurseVersion, CurseError>) {
        let id = read_required::<usize>(v, "id")?;
        let game_id = read_required::<usize>(v, "gameId")?;
        let name = read_required::<String>(v, "name")?;
        let slug = read_required::<String>(v, "slug")?;
        let download_count = read_required::<usize>(v, "downloadCount")?;
        let latest_files = read_required::<Vec<CurseFile>>(v, "latestFiles")?;
        Ok(CurseVersion { id, game_id, name, slug, download_count, latest_files })
    }

    fn to_value(&self) -> (r: Option<serde_json::Value>) {
        let ms = members_new();
        let ms = write_member(ms, "id", &self.id)?;
        let ms = write_member(ms, "gameId", &self.game_id)?;
        let ms = write_member(ms, "name", &self.name)?;
        let ms = write_member(ms, "slug", &self.slug)?;
        let ms = write_member(ms, "downloadCount", &self.download_count)?;
        let ms = write_member(ms, "latestFiles", &self.latest_files)?;
        Some(value_from_members(ms))
    }

    proof fn lemma_round_trip(m: VersionModel) {
        reveal_strlit("id");
        reveal_strlit("gameId");
        reveal_strlit("name");
        reveal_strlit("slug");
        reveal_strlit("downloadCount");
        reveal_strlit("latestFiles");
        assert("id"@.len() == 2 && "gameId"@.len() == 6 && "name"@.len() == 4);
        assert("slug"@.len() == 4 && "downloadCount"@.len() == 13 && "latestFiles"@.len() == 11);
        assert("name"@[0] == 'n' && "slug"@[0] == 's');
        <Vec<CurseFile> as Record>::lemma_round_trip(m.latest_files);
    }
}

/// The versions of a mod, as the service lists them under `data`.
#[derive(Clone, Debug, PartialEq, Eq)]
pub struct CurseVersions {
    pub data: Vec<CurseVersion>,
}

impl Record for CurseVersions {
    type Model = VersionsModel;

    open spec fn model(&self) -> VersionsModel {
        VersionsModel { data: self.data.model() }
    }

    /// An object with an array of versions under `data`.
    open spec fn decoded(doc: Doc) -> Option<VersionsModel> {
        match required::<Vec<CurseVersion>>(doc, "data"@) {
            Some(data) => Some(VersionsModel { data }),
            None => None,
        }
    }

    open spec fn encoded(m: VersionsModel) -> Option<Doc> {
        let ms = Some(no_members());
        let ms = with_member::<Vec<CurseVersion>>(ms, "data"@, m.data);
        object_of(ms)
    }

    fn from_value(v: &serde_json::Value) -> (r: Result<CurseVersions, CurseError>) {
        let data = read_required::<Vec<CurseVersion>>(v, "data")?;
        Ok(CurseVersions { data })
    }

    fn to_value(&self) -> (r: Option<serde_json::Value>) {
        let ms = members_new();
        let ms = write_member(ms, "data", &self.data)?;
        Some(value_from_members(ms))
    }

    proof fn lemma_round_trip(m: VersionsModel) {
        <Vec<CurseVersion> as Record>::lemma_round_trip(m.data);
    }
}

} // verus!

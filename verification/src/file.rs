//! One downloadable file of a mod, and a mod's logo.

use vstd::prelude::*;
use crate::error::CurseError;
use crate::json::{members_new, no_members, value_from_members, Doc};
use crate::paths::{path_as_path, path_slice_text, path_text};
use crate::record::{
    object_of, optional, read_optional, read_required, required, with_member, with_optional,
    write_member, write_optional, Record,
};
use std::path::{Path, PathBuf};

verus! {

/// What a `Logo` is.
pub struct LogoModel {
    pub id: usize,
    pub mod_id: usize,
    pub thumbnail_url: Seq<char>,
    pub url: Seq<char>,
}

/// The logo of a mod. Nothing ties it to a file but the mod's number.
#[derive(Clone, Debug, PartialEq, Eq)]
pub struct Logo {
    pub id: usize,
    pub mod_id: usize,
    pub thumbnail_url: String,
    pub url: String,
}

impl Record for Logo {
    type Model = LogoModel;

    open spec fn model(&self) -> LogoModel {
        LogoModel {
            id: self.id,
            mod_id: self.mod_id,
            thumbnail_url: self.thumbnail_url@,
            url: self.url@,
        }
    }

    /// An object with numbers under `id` and `modId` and strings under
    /// `thumbnailUrl` and `url`.
    open spec fn decoded(doc: Doc) -> Option<LogoModel> {
        match (
            required::<usize>(doc, "id"@),
            required::<usize>(doc, "modId"@),
            required::<String>(doc, "thumbnailUrl"@),
            required::<String>(doc, "url"@),
        ) {
            (Some(id), Some(mod_id), Some(thumbnail_url), Some(url)) => Some(
                LogoModel { id, mod_id, thumbnail_url, url },
            ),
            _ => None,
        }
    }

    open spec fn encoded(m: LogoModel) -> Option<Doc> {
        let ms = Some(no_members());
        let ms = with_member::<usize>(ms, "id"@, m.id);
        let ms = with_member::<usize>(ms, "modId"@, m.mod_id);
        let ms = with_member::<String>(ms, "thumbnailUrl"@, m.thumbnail_url);
        let ms = with_member::<String>(ms, "url"@, m.url);
        object_of(ms)
    }

    fn from_value(v: &serde_json::Value) -> (r: Result<Logo, CurseError>) {
        let id = read_required::<usize>(v, "id")?;
        let mod_id = read_required::<usize>(v, "modId")?;
        let thumbnail_url = read_required::<String>(v, "thumbnailUrl")?;
        let url = read_required::<String>(v, "url")?;
        Ok(Logo { id, mod_id, thumbnail_url, url })
    }

    fn to_value(&self) -> (r: Option<serde_json::Value>) {
        let ms = members_new();
        let ms = write_member(ms, "id", &self.id)?;
        let ms = write_member(ms, "modId", &self.mod_id)?;
        let ms = write_member(ms, "thumbnailUrl", &self.thumbnail_url)?;
        let ms = write_member(ms, "url", &self.url)?;
        Some(value_from_members(ms))
    }

    proof fn lemma_round_trip(m: LogoModel) {
        reveal_strlit("id");
        reveal_strlit("modId");
        reveal_strlit("thumbnailUrl");
        reveal_strlit("url");
        assert("id"@.len() == 2 && "modId"@.len() == 5 && "thumbnailUrl"@.len() == 12 && "url"@.len()
            == 3);
    }
}

/// What a `CurseFile` is. `file_name` is `None` where the name is no valid
/// Unicode.
pub struct FileModel {
    pub id: usize,
    pub game_id: Option<usize>,
    pub mod_id: usize,
    pub display_name: Seq<char>,
    pub file_name: Option<Seq<char>>,
    pub download_url: Option<Seq<char>>,
    pub file_length: usize,
    pub game_versions: Seq<Seq<char>>,
}

/// One downloadable file of a mod.
///
/// The game's number and the download address may be missing in what the
/// service sends. The accessors do not tell a missing one from an empty one:
/// they answer `0` and the empty string.
#[derive(Clone, Debug, PartialEq, Eq)]
pub struct CurseFile {
    pub id: usize,
    pub game_id: Option<usize>,
    pub mod_id: usize,
    pub display_name: String,
    pub file_name: PathBuf,
    pub download_url: Option<String>,
    pub file_length: usize,
    pub game_versions: Vec<String>,
}

impl CurseFile {
    pub fn get_id(&self) -> (r: usize)
        ensures
            r == self.model().id,
    {
        self.id
    }

    /// The game's number, or `0` where there is none.
    pub fn get_game_id(&self) -> (r: usize)
        ensures
            r == match self.model().game_id {
                Some(game_id) => game_id,
                None => 0,
            },
    {
        match self.game_id {
            Some(game_id) => game_id,
            None => 0,
        }
    }

    pub fn get_mod_id(&self) -> (r: usize)
        ensures
            r == self.model().mod_id,
    {
        self.mod_id
    }

    pub fn get_game_versions(&self) -> (r: &[String])
        ensures
            r@ == self.game_versions@,
    {
        self.game_versions.as_slice()
    }

    pub fn get_display_name(&self) -> (r: &str)
        ensures
            r@ == self.model().display_name,
    {
        self.display_name.as_str()
    }

    pub fn get_file_name(&self) -> (r: &Path)
        ensures
            path_slice_text(r) == self.model().file_name,
    {
        path_as_path(&self.file_name)
    }

    /// The download address, or the empty string where there is none.
    pub fn get_download_url(&self) -> (r: &str)
        ensures
            r@ == match self.model().download_url {
                Some(url) => url,
                None => Seq::<char>::empty(),
            },
    {
        match &self.download_url {
            Some(url) => url.as_str(),
            None => {
                proof {
                    reveal_strlit("");
                    assert(""@ =~= Seq::<char>::empty());
                }
                ""
            },
        }
    }
}

impl Record for CurseFile {
    type Model = FileModel;

    open spec fn model(&self) -> FileModel {
        FileModel {
            id: self.id,
            game_id: self.game_id,
            mod_id: self.mod_id,
            display_name: self.display_name@,
            file_name: path_text(self.file_name),
            download_url: match self.download_url {
                Some(url) => Some(url@),
                None => None,
            },
            file_length: self.file_length,
            game_versions: self.game_versions.model(),
        }
    }

    /// An object with numbers under `id`, `modId` and `fileLength`, strings
    /// under `displayName` and `fileName`, an array of strings under
    /// `gameVersions`, and, each either left out, `null` or of its type, a
    /// number under `gameId` and a string under `downloadUrl`.
    open spec fn decoded(doc: Doc) -> Option<FileModel> {
        match (
            required::<usize>(doc, "id"@),
            optional::<usize>(doc, "gameId"@),
            required::<usize>(doc, "modId"@),
            required::<String>(doc, "displayName"@),
            required::<PathBuf>(doc, "fileName"@),
            optional::<String>(doc, "downloadUrl"@),
            required::<usize>(doc, "fileLength"@),
            required::<Vec<String>>(doc, "gameVersions"@),
        ) {
            (
                Some(id),
                Some(game_id),
                Some(mod_id),
                Some(display_name),
                Some(file_name),
                Some(download_url),
                Some(file_length),
                Some(game_versions),
            ) => Some(
                FileModel {
                    id,
                    game_id,
                    mod_id,
                    display_name,
                    file_name,
                    download_url,
                    file_length,
                    game_versions,
                },
            ),
            _ => None,
        }
    }

    /// All eight members, a missing one as `null`; a file whose name is no
    /// valid Unicode has no document.
    open spec fn encoded(m: FileModel) -> Option<Doc> {
        let ms = Some(no_members());
        let ms = with_member::<usize>(ms, "id"@, m.id);
        let ms = with_optional::<usize>(ms, "gameId"@, m.game_id);
        let ms = with_member::<usize>(ms, "modId"@, m.mod_id);
        let ms = with_member::<String>(ms, "displayName"@, m.display_name);
        let ms = with_member::<PathBuf>(ms, "fileName"@, m.file_name);
        let ms = with_optional::<String>(ms, "downloadUrl"@, m.download_url);
        let ms = with_member::<usize>(ms, "fileLength"@, m.file_length);
        let ms = with_member::<Vec<String>>(ms, "gameVersions"@, m.game_versions);
        object_of(ms)
    }

    fn from_value(v: &serde_json::Value) -> (r: Result<CurseFile, CurseError>) {
        let id = read_required::<usize>(v, "id")?;
        let game_id = read_optional::<usize>(v, "gameId")?;
        let mod_id = read_required::<usize>(v, "modId")?;
        let display_name = read_required::<String>(v, "displayName")?;
        let file_name = read_required::<PathBuf>(v, "fileName")?;
        let download_url = read_optional::<String>(v, "downloadUrl")?;
        let file_length = read_required::<usize>(v, "fileLength")?;
        let game_versions = read_required::<Vec<String>>(v, "gameVersions")?;
        Ok(
            CurseFile {
                id,
                game_id,
                mod_id,
                display_name,
                file_name,
                download_url,
                file_length,
                game_versions,
            },
        )
    }

    fn to_value(&self) -> (r: Option<serde_json::Value>) {
        let ms = members_new();
        let ms = write_member(ms, "id", &self.id)?;
        let ms = write_optional(ms, "gameId", &self.game_id)?;
        let ms = write_member(ms, "modId", &self.mod_id)?;
        let ms = write_member(ms, "displayName", &self.display_name)?;
        let ms = write_member(ms, "fileName", &self.file_name)?;
        let ms = write_optional(ms, "downloadUrl", &self.download_url)?;
        let ms = write_member(ms, "fileLength", &self.file_length)?;
        let ms = write_member(ms, "gameVersions", &self.game_versions)?;
        Some(value_from_members(ms))
    }

    proof fn lemma_round_trip(m: FileModel) {
        reveal_strlit("id");
        reveal_strlit("gameId");
        reveal_strlit("modId");
        reveal_strlit("displayName");
        reveal_strlit("fileName");
        reveal_strlit("downloadUrl");
        reveal_strlit("fileLength");
        reveal_strlit("gameVersions");
        assert("id"@.len() == 2 && "gameId"@.len() == 6 && "modId"@.len() == 5);
        assert("displayName"@.len() == 11 && "fileName"@.len() == 8);
        assert("downloadUrl"@.len() == 11 && "fileLength"@.len() == 10);
        assert("gameVersions"@.len() == 12);
        assert("displayName"@[1] == 'i' && "downloadUrl"@[1] == 'o');
        <Vec<String> as Record>::lemma_round_trip(m.game_versions);
    }
}

/// A file has a document exactly when its name is valid Unicode.
pub proof fn lemma_file_document(m: FileModel)
    ensures
        CurseFile::encoded(m) is Some <==> m.file_name is Some,
{
}

} // verus!

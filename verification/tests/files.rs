use curse::{from_text, to_text, CurseError, CurseFile, Logo, Record};
use std::path::{Path, PathBuf};

const FILE: &str = r#"{"id":5,"gameId":432,"modId":9,"displayName":"Mod 1.0","fileName":"mod-1.0.jar","downloadUrl":"https://example.org/mod-1.0.jar","fileLength":1024,"gameVersions":["1.20.1","Forge"]}"#;

fn sample() -> CurseFile {
    CurseFile {
        id: 5,
        game_id: Some(432),
        mod_id: 9,
        display_name: "Mod 1.0".to_string(),
        file_name: PathBuf::from("mod-1.0.jar"),
        download_url: Some("https://example.org/mod-1.0.jar".to_string()),
        file_length: 1024,
        game_versions: vec!["1.20.1".to_string(), "Forge".to_string()],
    }
}

#[test]
fn file_is_read_member_by_member() {
    let file: CurseFile = from_text(FILE).unwrap();
    assert_eq!(file, sample());
    assert_eq!(file.get_id(), 5);
    assert_eq!(file.get_game_id(), 432);
    assert_eq!(file.get_mod_id(), 9);
    assert_eq!(file.get_display_name(), "Mod 1.0");
    assert_eq!(file.get_file_name(), Path::new("mod-1.0.jar"));
    assert_eq!(file.get_download_url(), "https://example.org/mod-1.0.jar");
    assert_eq!(file.file_length, 1024);
    assert_eq!(file.get_game_versions(), ["1.20.1".to_string(), "Forge".to_string()]);
}

#[test]
fn null_game_id_reads_as_zero() {
    let text = r#"{"id":5,"gameId":null,"modId":9,"displayName":"d","fileName":"f","downloadUrl":"u","fileLength":1,"gameVersions":[]}"#;
    let file: CurseFile = from_text(text).unwrap();
    assert_eq!(file.game_id, None);
    assert_eq!(file.get_game_id(), 0);
}

#[test]
fn absent_game_id_reads_as_zero() {
    let text = r#"{"id":5,"modId":9,"displayName":"d","fileName":"f","downloadUrl":"u","fileLength":1,"gameVersions":[]}"#;
    let file: CurseFile = from_text(text).unwrap();
    assert_eq!(file.game_id, None);
    assert_eq!(file.get_game_id(), 0);
}

#[test]
fn null_download_url_reads_as_empty_string() {
    let text = r#"{"id":5,"gameId":1,"modId":9,"displayName":"d","fileName":"f","downloadUrl":null,"fileLength":1,"gameVersions":[]}"#;
    let file: CurseFile = from_text(text).unwrap();
    assert_eq!(file.download_url, None);
    assert_eq!(file.get_download_url(), "");
}

#[test]
fn absent_download_url_reads_as_empty_string() {
    let text = r#"{"id":5,"gameId":1,"modId":9,"displayName":"d","fileName":"f","fileLength":1,"gameVersions":[]}"#;
    let file: CurseFile = from_text(text).unwrap();
    assert_eq!(file.download_url, None);
    assert_eq!(file.get_download_url(), "");
}

#[test]
fn present_values_are_not_replaced_by_defaults() {
    let mut file = sample();
    file.game_id = Some(0);
    file.download_url = Some(String::new());
    assert_eq!(file.get_game_id(), 0);
    assert_eq!(file.get_download_url(), "");
    file.game_id = Some(7);
    file.download_url = Some("x".to_string());
    assert_eq!(file.get_game_id(), 7);
    assert_eq!(file.get_download_url(), "x");
}

#[test]
fn optional_member_of_the_wrong_type_is_refused() {
    let text = r#"{"id":5,"gameId":"432","modId":9,"displayName":"d","fileName":"f","downloadUrl":"u","fileLength":1,"gameVersions":[]}"#;
    assert_eq!(
        from_text::<CurseFile>(text),
        Err(CurseError::Parse("gameId: expected a non-negative integer".to_string()))
    );
    let text = r#"{"id":5,"gameId":1,"modId":9,"displayName":"d","fileName":"f","downloadUrl":7,"fileLength":1,"gameVersions":[]}"#;
    assert_eq!(
        from_text::<CurseFile>(text),
        Err(CurseError::Parse("downloadUrl: expected a string".to_string()))
    );
}

#[test]
fn required_member_may_not_be_null_or_absent() {
    let null_id = r#"{"id":null,"modId":9,"displayName":"d","fileName":"f","fileLength":1,"gameVersions":[]}"#;
    assert!(matches!(from_text::<CurseFile>(null_id), Err(CurseError::Parse(_))));
    let no_versions = r#"{"id":5,"modId":9,"displayName":"d","fileName":"f","fileLength":1}"#;
    assert_eq!(
        from_text::<CurseFile>(no_versions),
        Err(CurseError::Parse("missing field `gameVersions`".to_string()))
    );
    let no_file_name = r#"{"id":5,"modId":9,"displayName":"d","fileLength":1,"gameVersions":[]}"#;
    assert_eq!(
        from_text::<CurseFile>(no_file_name),
        Err(CurseError::Parse("missing field `fileName`".to_string()))
    );
}

#[test]
fn game_versions_must_all_be_strings() {
    let text = r#"{"id":5,"modId":9,"displayName":"d","fileName":"f","fileLength":1,"gameVersions":["a",2]}"#;
    assert_eq!(
        from_text::<CurseFile>(text),
        Err(CurseError::Parse("gameVersions: expected a string".to_string()))
    );
}

#[test]
fn file_is_written_as_compact_text() {
    let text = to_text(&sample()).unwrap();
    assert_eq!(
        text,
        r#"{"displayName":"Mod 1.0","downloadUrl":"https://example.org/mod-1.0.jar","fileLength":1024,"fileName":"mod-1.0.jar","gameId":432,"gameVersions":["1.20.1","Forge"],"id":5,"modId":9}"#
    );
}

#[test]
fn missing_values_are_written_as_null() {
    let mut file = sample();
    file.game_id = None;
    file.download_url = None;
    file.game_versions = Vec::new();
    let text = to_text(&file).unwrap();
    assert_eq!(
        text,
        r#"{"displayName":"Mod 1.0","downloadUrl":null,"fileLength":1024,"fileName":"mod-1.0.jar","gameId":null,"gameVersions":[],"id":5,"modId":9}"#
    );
}

#[test]
fn file_round_trips_through_text() {
    let file = sample();
    let back: CurseFile = from_text(&to_text(&file).unwrap()).unwrap();
    assert_eq!(back, file);
    let mut bare = sample();
    bare.game_id = None;
    bare.download_url = None;
    let back: CurseFile = from_text(&to_text(&bare).unwrap()).unwrap();
    assert_eq!(back, bare);
    assert_eq!(back.game_id, None);
    assert_eq!(back.download_url, None);
}

#[test]
fn zero_and_empty_survive_the_round_trip_as_present() {
    let mut file = sample();
    file.game_id = Some(0);
    file.download_url = Some(String::new());
    let back: CurseFile = from_text(&to_text(&file).unwrap()).unwrap();
    assert_eq!(back.game_id, Some(0));
    assert_eq!(back.download_url, Some(String::new()));
}

#[test]
fn file_round_trips_through_a_document() {
    let file = sample();
    let document = file.to_value().unwrap();
    assert_eq!(CurseFile::from_value(&document), Ok(file));
}

#[test]
fn copy_of_a_file_is_the_same_file() {
    let file = sample();
    let copy = file.clone();
    assert_eq!(copy, file);
    assert_eq!(copy.get_file_name(), Path::new("mod-1.0.jar"));
    assert_eq!(to_text(&copy), to_text(&file));
}

#[test]
fn file_name_keeps_directories() {
    let text = r#"{"id":1,"modId":2,"displayName":"d","fileName":"mods/sub/a b.jar","fileLength":1,"gameVersions":[]}"#;
    let file: CurseFile = from_text(text).unwrap();
    assert_eq!(file.get_file_name(), Path::new("mods/sub/a b.jar"));
    assert_eq!(file.get_file_name().to_str(), Some("mods/sub/a b.jar"));
}

#[test]
fn logo_is_read_and_written() {
    let text = r#"{"id":3,"modId":9,"thumbnailUrl":"https://example.org/t.png","url":"https://example.org/l.png"}"#;
    let logo: Logo = from_text(text).unwrap();
    assert_eq!(
        logo,
        Logo {
            id: 3,
            mod_id: 9,
            thumbnail_url: "https://example.org/t.png".to_string(),
            url: "https://example.org/l.png".to_string(),
        }
    );
    assert_eq!(to_text(&logo).unwrap(), text);
    assert_eq!(from_text::<Logo>(&to_text(&logo).unwrap()), Ok(logo));
}

#[test]
fn logo_needs_every_member() {
    let text = r#"{"id":3,"modId":9,"url":"u"}"#;
    assert_eq!(
        from_text::<Logo>(text),
        Err(CurseError::Parse("missing field `thumbnailUrl`".to_string()))
    );
    let snake = r#"{"id":3,"mod_id":9,"thumbnail_url":"t","url":"u"}"#;
    assert_eq!(from_text::<Logo>(snake), Err(CurseError::Parse("missing field `modId`".to_string())));
}

#[test]
fn plain_values_are_records_too() {
    assert_eq!(from_text::<usize>("17"), Ok(17));
    assert_eq!(from_text::<String>(r#""seventeen""#), Ok("seventeen".to_string()));
    assert_eq!(from_text::<Vec<usize>>("[3,1,2]"), Ok(vec![3, 1, 2]));
    assert_eq!(from_text::<PathBuf>(r#""a/b""#), Ok(PathBuf::from("a/b")));
    assert_eq!(to_text(&17usize), Some("17".to_string()));
    assert_eq!(to_text(&"x\"y".to_string()), Some(r#""x\"y""#.to_string()));
    assert_eq!(to_text(&vec![3usize, 1, 2]), Some("[3,1,2]".to_string()));
    assert_eq!(to_text(&PathBuf::from("a/b")), Some(r#""a/b""#.to_string()));
    assert!(matches!(from_text::<Vec<usize>>("[3,true]"), Err(CurseError::Parse(_))));
    assert!(matches!(from_text::<usize>("true"), Err(CurseError::Parse(_))));
    assert!(matches!(from_text::<String>("null"), Err(CurseError::Parse(_))));
}

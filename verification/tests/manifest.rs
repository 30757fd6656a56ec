use curse::{from_text, pack_from_read, to_text, CurseError, CursePack, CursePackFiles, Record};

const MANIFEST: &str = r#"{"name":"Pack1","author":"Alice","files":[{"projectID":10,"fileID":20},{"projectID":11,"fileID":21}]}"#;

#[test]
fn manifest_loads_two_files_in_order() {
    let pack = pack_from_read(Ok(MANIFEST.to_string())).unwrap();
    assert_eq!(pack.name, "Pack1");
    assert_eq!(pack.author, "Alice");
    let files = pack.get_files();
    assert_eq!(files.len(), 2);
    assert_eq!(files[0].get_project_id(), 10);
    assert_eq!(files[0].get_file_id(), 20);
    assert_eq!(files[1].get_project_id(), 11);
    assert_eq!(files[1].get_file_id(), 21);
}

#[test]
fn manifest_from_text_agrees_with_loader() {
    let direct: CursePack = from_text(MANIFEST).unwrap();
    let loaded = pack_from_read(Ok(MANIFEST.to_string())).unwrap();
    assert_eq!(direct, loaded);
}

#[test]
fn unreadable_manifest_is_an_io_failure() {
    let cause = "No such file or directory (os error 2)".to_string();
    let outcome = pack_from_read(Err(cause.clone()));
    assert_eq!(outcome, Err(CurseError::Io(cause)));
}

#[test]
fn text_that_is_no_json_is_a_parse_failure() {
    let outcome = pack_from_read(Ok("this is not json".to_string()));
    assert!(matches!(outcome, Err(CurseError::Parse(_))));
}

#[test]
fn empty_text_is_a_parse_failure() {
    let outcome = pack_from_read(Ok(String::new()));
    assert!(matches!(outcome, Err(CurseError::Parse(_))));
}

#[test]
fn manifest_without_files_is_a_parse_failure() {
    let outcome = pack_from_read(Ok(r#"{"name":"Pack1","author":"Alice"}"#.to_string()));
    assert_eq!(outcome, Err(CurseError::Parse("missing field `files`".to_string())));
}

#[test]
fn manifest_without_name_or_author_is_a_parse_failure() {
    let no_name = from_text::<CursePack>(r#"{"author":"Alice","files":[]}"#);
    assert_eq!(no_name, Err(CurseError::Parse("missing field `name`".to_string())));
    let no_author = from_text::<CursePack>(r#"{"name":"Pack1","files":[]}"#);
    assert_eq!(no_author, Err(CurseError::Parse("missing field `author`".to_string())));
}

#[test]
fn manifest_with_a_wrong_member_is_a_parse_failure() {
    let name_is_number = from_text::<CursePack>(r#"{"name":1,"author":"Alice","files":[]}"#);
    assert_eq!(name_is_number, Err(CurseError::Parse("name: expected a string".to_string())));
    let files_is_object = from_text::<CursePack>(r#"{"name":"P","author":"A","files":{}}"#);
    assert_eq!(files_is_object, Err(CurseError::Parse("files: expected an array".to_string())));
    let null_name = from_text::<CursePack>(r#"{"name":null,"author":"A","files":[]}"#);
    assert!(matches!(null_name, Err(CurseError::Parse(_))));
}

#[test]
fn manifest_entry_must_hold_both_numbers() {
    let text = r#"{"name":"P","author":"A","files":[{"projectID":10,"fileID":20},{"projectID":11}]}"#;
    let outcome = from_text::<CursePack>(text);
    assert_eq!(outcome, Err(CurseError::Parse("files: missing field `fileID`".to_string())));
}

#[test]
fn manifest_entry_keys_are_spelled_with_capital_id() {
    let text = r#"{"name":"P","author":"A","files":[{"projectId":10,"fileId":20}]}"#;
    assert!(matches!(from_text::<CursePack>(text), Err(CurseError::Parse(_))));
}

#[test]
fn manifest_that_is_no_object_is_a_parse_failure() {
    assert!(matches!(from_text::<CursePack>("[]"), Err(CurseError::Parse(_))));
    assert!(matches!(from_text::<CursePack>("null"), Err(CurseError::Parse(_))));
    assert!(matches!(from_text::<CursePack>("42"), Err(CurseError::Parse(_))));
    assert!(matches!(from_text::<CursePack>(r#"["Pack1","Alice",[]]"#), Err(CurseError::Parse(_))));
}

#[test]
fn text_after_the_document_is_a_parse_failure() {
    let text = format!("{} trailing", MANIFEST);
    assert!(matches!(from_text::<CursePack>(&text), Err(CurseError::Parse(_))));
}

#[test]
fn numbers_that_are_no_unsigned_integers_are_refused() {
    let negative = r#"{"projectID":-1,"fileID":20}"#;
    assert_eq!(
        from_text::<CursePackFiles>(negative),
        Err(CurseError::Parse("projectID: expected a non-negative integer".to_string()))
    );
    let fraction = r#"{"projectID":1.5,"fileID":20}"#;
    assert!(matches!(from_text::<CursePackFiles>(fraction), Err(CurseError::Parse(_))));
    let text = r#"{"projectID":"10","fileID":20}"#;
    assert!(matches!(from_text::<CursePackFiles>(text), Err(CurseError::Parse(_))));
    let too_large = r#"{"projectID":18446744073709551616,"fileID":20}"#;
    assert!(matches!(from_text::<CursePackFiles>(too_large), Err(CurseError::Parse(_))));
}

#[test]
fn largest_number_of_the_machine_is_read() {
    let text = format!(r#"{{"projectID":{},"fileID":0}}"#, usize::MAX);
    let entry: CursePackFiles = from_text(&text).unwrap();
    assert_eq!(entry.get_project_id(), usize::MAX);
    assert_eq!(entry.get_file_id(), 0);
}

#[test]
fn unknown_members_are_passed_over() {
    let text = r#"{"name":"P","version":3,"author":"A","files":[],"notes":["x"]}"#;
    let pack: CursePack = from_text(text).unwrap();
    assert_eq!(pack.name, "P");
    assert_eq!(pack.author, "A");
    assert!(pack.get_files().is_empty());
}

#[test]
fn duplicate_entries_pass_through_unchanged() {
    let text = r#"{"name":"P","author":"A","files":[{"projectID":7,"fileID":8},{"projectID":7,"fileID":8}]}"#;
    let pack: CursePack = from_text(text).unwrap();
    assert_eq!(pack.get_files().len(), 2);
    assert_eq!(pack.get_files()[0], pack.get_files()[1]);
    assert_eq!(pack.get_files()[0], CursePackFiles::new(7, 8));
}

#[test]
fn pack_entry_accessors_give_the_two_numbers() {
    let entry = CursePackFiles::new(10, 20);
    assert_eq!(entry.get_project_id(), 10);
    assert_eq!(entry.get_file_id(), 20);
}

#[test]
fn pack_is_written_as_compact_text() {
    let pack = CursePack::new(
        "Pack1".to_string(),
        "Alice".to_string(),
        vec![CursePackFiles::new(10, 20), CursePackFiles::new(11, 21)],
    );
    let text = to_text(&pack).unwrap();
    assert_eq!(
        text,
        r#"{"author":"Alice","files":[{"fileID":20,"projectID":10},{"fileID":21,"projectID":11}],"name":"Pack1"}"#
    );
}

#[test]
fn pack_round_trips_through_text() {
    let pack = CursePack::new(
        "A \"quoted\" name\n".to_string(),
        "Zoë".to_string(),
        vec![CursePackFiles::new(3, 1), CursePackFiles::new(1, 3), CursePackFiles::new(2, 2)],
    );
    let text = to_text(&pack).unwrap();
    let back: CursePack = from_text(&text).unwrap();
    assert_eq!(back, pack);
    assert_eq!(back.get_files()[0], CursePackFiles::new(3, 1));
    assert_eq!(back.get_files()[1], CursePackFiles::new(1, 3));
    assert_eq!(back.get_files()[2], CursePackFiles::new(2, 2));
}

#[test]
fn pack_round_trips_through_a_document() {
    let pack = CursePack::new("P".to_string(), "A".to_string(), vec![CursePackFiles::new(1, 2)]);
    let document = pack.to_value().unwrap();
    assert_eq!(CursePack::from_value(&document), Ok(pack));
}

#[test]
fn empty_pack_round_trips() {
    let pack = CursePack::new(String::new(), String::new(), Vec::new());
    let text = to_text(&pack).unwrap();
    assert_eq!(text, r#"{"author":"","files":[],"name":""}"#);
    assert_eq!(from_text::<CursePack>(&text), Ok(pack));
}

#[test]
fn failure_messages_name_what_failed() {
    let io = CurseError::Io("permission denied".to_string());
    assert_eq!(io.message(), "Error reading the pack \n\npermission denied");
    let parse = CurseError::Parse("missing field `files`".to_string());
    assert_eq!(parse.message(), "Error deserializing the pack \n\nmissing field `files`");
    assert_eq!(CurseError::EmptyResult.message(), "The fingerprint lookup has no exact match");
}

#[test]
fn refused_text_carries_a_diagnostic() {
    match from_text::<CursePack>("{\"name\": ") {
        Err(CurseError::Parse(diagnostic)) => assert!(!diagnostic.is_empty()),
        other => panic!("expected a parse failure, got {:?}", other),
    }
}

use miku_notes_gateway::error::ErrorKind;
use miku_notes_gateway::multipart::{
    classify_field, not_multipart, parse_attach_target, parse_file_size, AttachTarget, FieldRole,
};
use miku_notes_gateway::upload::{
    into_data_frames, Stage, UploadAction, UploadDriver, UploadEvent, UploadFrame, UploadPhase,
};

const MB: usize = 1024 * 1024;

fn field(name: &str) -> UploadEvent {
    UploadEvent::Field { name: Some(name.to_string()), file_name: None }
}

fn file_field(file_name: &str) -> UploadEvent {
    UploadEvent::Field { name: Some("file".to_string()), file_name: Some(file_name.to_string()) }
}

fn text(t: &str) -> UploadEvent {
    UploadEvent::Text(t.to_string())
}

fn expect_abort(action: UploadAction, kind: ErrorKind) -> String {
    match action {
        UploadAction::Abort(e) => {
            assert_eq!(e.kind(), kind);
            e.internal_msg().to_string()
        }
        other => panic!("expected an abort, got {:?}", other),
    }
}

fn expect_send(action: UploadAction) -> Vec<UploadFrame> {
    match action {
        UploadAction::Send(frames) => frames,
        other => panic!("expected frames to send, got {:?}", other),
    }
}

fn expect_finish(action: UploadAction) -> Vec<UploadFrame> {
    match action {
        UploadAction::Finish(frames) => frames,
        other => panic!("expected the last frames, got {:?}", other),
    }
}

/// Runs a whole upload of `data`, delivered in fragments of `fragment` bytes.
fn upload(owner: i32, chunk_size: usize, data: &[u8], fragment: usize) -> Vec<UploadFrame> {
    let mut driver = UploadDriver::new(owner, chunk_size);
    assert_eq!(driver.phase(), UploadPhase::Start);
    assert!(matches!(driver.step(field("note_id")), UploadAction::ReadText));
    assert_eq!(driver.phase(), UploadPhase::ParsingFields);
    assert!(matches!(driver.step(text("17")), UploadAction::NextField));
    let mut frames = expect_send(driver.step(file_field("report.bin")));
    assert_eq!(frames.len(), 1);
    assert_eq!(driver.phase(), UploadPhase::StreamingMetadata);
    for piece in data.chunks(fragment) {
        frames.extend(expect_send(driver.step(UploadEvent::Fragment(piece.to_vec()))));
        assert_eq!(driver.phase(), UploadPhase::StreamingData);
    }
    frames.extend(expect_finish(driver.step(UploadEvent::End)));
    assert_eq!(driver.phase(), UploadPhase::Done);
    frames
}

fn check_stream(frames: &[UploadFrame], owner: i32, data: &[u8], chunk_size: usize) {
    let meta = frames[0].metadata.as_ref().expect("the first frame carries the metadata");
    assert_eq!(meta.owner_id, owner);
    assert_eq!(meta.file_name, "report.bin");
    assert_eq!(meta.attach_target, AttachTarget::NoteId(17));
    assert_eq!(meta.declared_size, None);
    assert!(frames[0].data.is_empty());
    let mut joined = Vec::new();
    for frame in &frames[1..] {
        assert!(frame.metadata.is_none());
        assert!(!frame.data.is_empty() && frame.data.len() <= chunk_size);
        joined.extend_from_slice(&frame.data);
    }
    assert_eq!(joined, data);
    assert_eq!(frames.len(), 1 + (data.len() + chunk_size - 1) / chunk_size);
}

#[test]
fn ten_megabytes_in_four_megabyte_chunks() {
    let data: Vec<u8> = (0..10 * MB).map(|i| (i % 253) as u8).collect();
    let frames = upload(3, 4 * MB, &data, 64 * 1024 + 7);
    assert_eq!(frames.len(), 4);
    let sizes: Vec<usize> = frames[1..].iter().map(|f| f.data.len()).collect();
    assert_eq!(sizes, vec![4 * MB, 4 * MB, 2 * MB]);
    check_stream(&frames, 3, &data, 4 * MB);
}

#[test]
fn empty_file_is_one_metadata_frame() {
    let frames = upload(9, 4 * MB, &[], 1);
    assert_eq!(frames.len(), 1);
    assert!(frames[0].metadata.is_some());
    assert!(frames[0].data.is_empty());
}

#[test]
fn frames_do_not_depend_on_fragment_sizes() {
    let data: Vec<u8> = (0..1000).map(|i| (i * 7 % 256) as u8).collect();
    let whole = upload(1, 64, &data, 1000);
    for fragment in [1usize, 3, 64, 65, 999] {
        let frames = upload(1, 64, &data, fragment);
        check_stream(&frames, 1, &data, 64);
        assert_eq!(frames.len(), whole.len());
        for (a, b) in frames.iter().zip(whole.iter()) {
            assert_eq!(a.data, b.data);
        }
    }
}

#[test]
fn file_before_target_is_rejected() {
    let mut driver = UploadDriver::new(1, 4);
    let detail = expect_abort(driver.step(file_field("a.txt")), ErrorKind::InvalidFields);
    assert_eq!(detail, "Could not get either note_id nor shelf_id from the multipart body");
    assert_eq!(driver.stage(), Stage::Failed);
    assert_eq!(driver.phase(), UploadPhase::Failed);
}

#[test]
fn both_targets_are_rejected() {
    let mut driver = UploadDriver::new(1, 4);
    assert!(matches!(driver.step(field("note_id")), UploadAction::ReadText));
    assert!(matches!(driver.step(text("1")), UploadAction::NextField));
    let detail = expect_abort(driver.step(field("shelf_id")), ErrorKind::InvalidFields);
    assert_eq!(detail, "Could not get the file from the multipart body");

    let mut driver = UploadDriver::new(1, 4);
    assert!(matches!(driver.step(field("shelf_id")), UploadAction::ReadText));
    assert!(matches!(driver.step(text("1")), UploadAction::NextField));
    expect_abort(driver.step(field("note_id")), ErrorKind::InvalidFields);
}

#[test]
fn neither_target_is_rejected() {
    let mut driver = UploadDriver::new(1, 4);
    expect_abort(driver.step(UploadEvent::End), ErrorKind::InvalidFields);

    let mut driver = UploadDriver::new(1, 4);
    expect_abort(driver.step(field("title")), ErrorKind::InvalidFields);

    let mut driver = UploadDriver::new(1, 4);
    let unnamed = UploadEvent::Field { name: None, file_name: None };
    expect_abort(driver.step(unnamed), ErrorKind::InvalidFields);
}

#[test]
fn missing_file_is_rejected() {
    let mut driver = UploadDriver::new(1, 4);
    driver.step(field("shelf_id"));
    driver.step(text("4"));
    let detail = expect_abort(driver.step(UploadEvent::End), ErrorKind::InvalidFields);
    assert_eq!(detail, "Could not get the file from the multipart body");
}

#[test]
fn shelf_target_and_size_hint_reach_the_metadata() {
    let mut driver = UploadDriver::new(42, 8);
    assert!(matches!(driver.step(field("shelf_id")), UploadAction::ReadText));
    assert!(matches!(driver.step(text("+12")), UploadAction::NextField));
    assert_eq!(driver.stage(), Stage::AfterTarget { target: AttachTarget::ShelfId(12) });
    assert!(matches!(driver.step(field("file_size")), UploadAction::ReadText));
    assert!(matches!(driver.step(text("1234")), UploadAction::NextField));
    let nameless = UploadEvent::Field { name: Some("file".to_string()), file_name: None };
    let frames = expect_send(driver.step(nameless));
    assert_eq!(frames.len(), 1);
    let meta = frames[0].metadata.as_ref().unwrap();
    assert_eq!(meta.owner_id, 42);
    assert_eq!(meta.file_name, "");
    assert_eq!(meta.attach_target, AttachTarget::ShelfId(12));
    assert_eq!(meta.declared_size, Some(1234));
    assert!(frames[0].data.is_empty());
}

#[test]
fn size_hint_must_be_followed_by_the_file() {
    let mut driver = UploadDriver::new(1, 8);
    driver.step(field("note_id"));
    driver.step(text("1"));
    driver.step(field("file_size"));
    driver.step(text("10"));
    expect_abort(driver.step(field("file_size")), ErrorKind::InvalidFields);
}

#[test]
fn unparseable_target_names_the_field() {
    let mut driver = UploadDriver::new(1, 4);
    driver.step(field("note_id"));
    let detail = expect_abort(driver.step(text("12a")), ErrorKind::InvalidFields);
    assert_eq!(detail, "Could not parse note_id from the multipart body: invalid digit found in string");

    let mut driver = UploadDriver::new(1, 4);
    driver.step(field("shelf_id"));
    let detail = expect_abort(driver.step(text("0")), ErrorKind::InvalidFields);
    assert_eq!(detail, "Could not parse shelf_id from the multipart body: 0");

    let mut driver = UploadDriver::new(1, 4);
    driver.step(field("note_id"));
    driver.step(text("7"));
    driver.step(field("file_size"));
    let detail = expect_abort(driver.step(text("-1")), ErrorKind::InvalidFields);
    assert_eq!(detail, "Could not parse file_size from the multipart body: invalid digit found in string");
}

#[test]
fn read_error_while_parsing_is_invalid_fields() {
    let mut driver = UploadDriver::new(1, 4);
    driver.step(field("note_id"));
    let detail = expect_abort(
        driver.step(UploadEvent::ReadError("connection reset".to_string())),
        ErrorKind::InvalidFields,
    );
    assert_eq!(detail, "connection reset");
}

#[test]
fn read_error_while_streaming_stops_the_stream() {
    let mut driver = UploadDriver::new(1, 4);
    driver.step(field("note_id"));
    driver.step(text("1"));
    driver.step(file_field("a.bin"));
    let frames = expect_send(driver.step(UploadEvent::Fragment(vec![1, 2, 3, 4, 5, 6])));
    assert_eq!(frames.len(), 1);
    assert_eq!(frames[0].data, vec![1, 2, 3, 4]);
    let detail = expect_abort(
        driver.step(UploadEvent::ReadError("client went away".to_string())),
        ErrorKind::ServerError,
    );
    assert_eq!(detail, "client went away");
    assert_eq!(driver.phase(), UploadPhase::Failed);
    expect_abort(driver.step(UploadEvent::Fragment(vec![7])), ErrorKind::ServerError);
    let detail = expect_abort(driver.step(UploadEvent::End), ErrorKind::ServerError);
    assert_eq!(detail, "The upload stream has already failed");
    assert_eq!(driver.phase(), UploadPhase::Failed);
}

#[test]
fn event_out_of_turn_fails_the_upload() {
    let mut driver = UploadDriver::new(1, 4);
    let detail = expect_abort(driver.step(UploadEvent::Fragment(vec![1])), ErrorKind::ServerError);
    assert_eq!(detail, "Unexpected event in the upload stream");

    let mut driver = UploadDriver::new(1, 4);
    driver.step(field("note_id"));
    expect_abort(driver.step(field("file")), ErrorKind::ServerError);
}

#[test]
fn finished_upload_emits_nothing_more() {
    let mut driver = UploadDriver::new(1, 4);
    driver.step(field("note_id"));
    driver.step(text("1"));
    driver.step(file_field("a.bin"));
    driver.step(UploadEvent::Fragment(vec![1, 2]));
    let last = expect_finish(driver.step(UploadEvent::End));
    assert_eq!(last.len(), 1);
    assert_eq!(last[0].data, vec![1, 2]);
    assert!(expect_finish(driver.step(UploadEvent::Fragment(vec![3]))).is_empty());
    assert_eq!(driver.stage(), Stage::Done);
}

#[test]
fn field_names_decide_the_role() {
    assert_eq!(classify_field(&Some("note_id".to_string())), FieldRole::NoteId);
    assert_eq!(classify_field(&Some("shelf_id".to_string())), FieldRole::ShelfId);
    assert_eq!(classify_field(&Some("file_size".to_string())), FieldRole::FileSize);
    assert_eq!(classify_field(&Some("file".to_string())), FieldRole::File);
    assert_eq!(classify_field(&Some("File".to_string())), FieldRole::Other);
    assert_eq!(classify_field(&None), FieldRole::Other);
}

#[test]
fn target_text_must_be_a_positive_number() {
    assert_eq!(parse_attach_target(true, "5").unwrap(), AttachTarget::NoteId(5));
    assert_eq!(parse_attach_target(false, "2147483647").unwrap(), AttachTarget::ShelfId(2147483647));
    for bad in ["", "-3", "0", "2147483648", " 5", "5 ", "+", "1.5"] {
        let err = parse_attach_target(true, bad).unwrap_err();
        assert_eq!(err.kind(), ErrorKind::InvalidFields);
        assert!(err.internal_msg().starts_with("Could not parse note_id from the multipart body: "));
    }
    let err = parse_attach_target(true, "-3").unwrap_err();
    assert_eq!(err.internal_msg(), "Could not parse note_id from the multipart body: -3");
}

#[test]
fn size_text_must_be_an_unsigned_number() {
    assert_eq!(parse_file_size("0").unwrap(), 0);
    assert_eq!(parse_file_size("18446744073709551615").unwrap(), u64::MAX);
    let err = parse_file_size("18446744073709551616").unwrap_err();
    assert_eq!(
        err.internal_msg(),
        "Could not parse file_size from the multipart body: number too large to fit in target type"
    );
    let err = parse_file_size("").unwrap_err();
    assert_eq!(
        err.internal_msg(),
        "Could not parse file_size from the multipart body: cannot parse integer from empty string"
    );
}

#[test]
fn chunks_become_data_frames_in_order() {
    let frames = into_data_frames(vec![vec![1, 2], vec![3], vec![4, 5, 6]]);
    assert_eq!(frames.len(), 3);
    assert!(frames.iter().all(|f| f.metadata.is_none()));
    assert_eq!(frames[0].data, vec![1, 2]);
    assert_eq!(frames[1].data, vec![3]);
    assert_eq!(frames[2].data, vec![4, 5, 6]);
    assert!(into_data_frames(Vec::new()).is_empty());
}

#[test]
fn body_that_is_no_multipart_form_has_the_wrong_content_type() {
    let err = not_multipart("Invalid `boundary` for `multipart/form-data` request".to_string());
    assert_eq!(err.kind(), ErrorKind::InvalidContentType);
    assert_eq!(err.status_code(), 415);
    assert_eq!(err.internal_msg(), "Invalid `boundary` for `multipart/form-data` request");
}

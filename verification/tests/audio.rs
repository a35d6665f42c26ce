use std::collections::HashMap;

use oxicloud::audio::{
    copied_actions, created_actions, extract_metadata, updated_actions, AudioFileRow,
    AudioMetadataService, CloneReply, SaveMetadata, TagFields, TagFrame,
};
use oxicloud::errors::{DomainError, ErrorKind};
use oxicloud::identifier::Uuid;
use oxicloud::lifecycle::file::FileAction;

fn frame(id: &str, text: Option<&str>) -> TagFrame {
    TagFrame { id: id.to_string(), text: text.map(|t| t.to_string()) }
}

fn tag(frames: Vec<TagFrame>) -> TagFields {
    TagFields {
        title: Some("Title".to_string()),
        artist: Some("Artist".to_string()),
        album: None,
        genre: Some("Jazz".to_string()),
        track: Some(3),
        disc: Some(u32::MAX),
        year: Some(1959),
        duration: Some(61),
        frames,
    }
}

fn is_database_error<T>(outcome: Result<T, DomainError>, message: &str) -> bool {
    match outcome {
        Ok(_) => false,
        Err(e) => e.kind == ErrorKind::DatabaseError && e.message == message,
    }
}

#[test]
fn audio_types_are_recognised() {
    assert!(AudioMetadataService::is_audio_file("audio/mpeg"));
    assert!(AudioMetadataService::is_audio_file("audio/"));
    assert!(!AudioMetadataService::is_audio_file("audio"));
    assert!(!AudioMetadataService::is_audio_file("video/mp4"));
}

#[test]
fn blobs_lie_below_their_prefix() {
    let service = AudioMetadataService::new();
    assert_eq!(
        service.blob_path("abcdef"),
        ("ab".to_string(), "abcdef.blob".to_string())
    );
    assert_eq!(service.blob_path("ñx"), ("ñ".to_string(), "ñx.blob".to_string()));
}

#[test]
fn tags_become_metadata() {
    let frames = vec![frame("TIT2", Some("Title")), frame("TPE2", Some("Band"))];
    let m = extract_metadata(Some(tag(frames)), Some(62)).unwrap();
    assert_eq!(m.title.as_deref(), Some("Title"));
    assert_eq!(m.artist.as_deref(), Some("Artist"));
    assert_eq!(m.album, None);
    assert_eq!(m.album_artist.as_deref(), Some("Band"));
    assert_eq!(m.genre.as_deref(), Some("Jazz"));
    assert_eq!(m.track_number, Some(3));
    assert_eq!(m.disc_number, Some(-1));
    assert_eq!(m.year, Some(1959));
    assert_eq!(m.duration_secs, 62);
}

#[test]
fn durations_fall_back_to_the_tag() {
    assert_eq!(extract_metadata(Some(tag(vec![])), None).unwrap().duration_secs, 61);
    let mut silent = tag(vec![]);
    silent.duration = None;
    assert_eq!(extract_metadata(Some(silent), None).unwrap().duration_secs, 0);
    assert!(extract_metadata(None, Some(5)).is_none());
}

#[test]
fn only_the_first_album_artist_counts() {
    let frames = vec![frame("TPE2", None), frame("TPE2", Some("Second"))];
    assert_eq!(extract_metadata(Some(tag(frames)), None).unwrap().album_artist, None);
    let frames = vec![frame("TPE2", Some("First")), frame("TPE2", Some("Second"))];
    assert_eq!(
        extract_metadata(Some(tag(frames)), None).unwrap().album_artist.as_deref(),
        Some("First")
    );
    assert_eq!(
        extract_metadata(Some(tag(vec![frame("TPE1", Some("x"))])), None).unwrap().album_artist,
        None
    );
}

#[test]
fn metadata_is_saved() {
    let service = AudioMetadataService::new();
    let id = Uuid { value: 5 };
    let metadata = extract_metadata(Some(tag(vec![])), None);
    let save = service.extract_and_save(&id, Ok(metadata)).unwrap().unwrap();
    assert!(save.file_id == id);
    assert_eq!(save.format, "MPEG");
    assert_eq!(save.metadata.duration_secs, 61);
    assert!(service.extract_and_save(&id, Ok(None)).unwrap().is_none());
    match service.extract_and_save(&id, Err("panicked".to_string())) {
        Err(e) => {
            assert!(e.kind == ErrorKind::InternalError);
            assert_eq!(e.entity, "AudioMetadataService");
            assert_eq!(e.message, "spawn_blocking join error: panicked");
        }
        Ok(_) => panic!("the task did not end"),
    }
    assert!(SaveMetadata::saved(Ok(())).is_ok());
    assert!(is_database_error(
        SaveMetadata::saved(Err("x".to_string())),
        "Failed to save audio metadata: x"
    ));
    assert!(AudioMetadataService::delete_metadata(Ok(())).is_ok());
    assert!(is_database_error(
        AudioMetadataService::delete_metadata(Err("x".to_string())),
        "Failed to delete audio metadata: x"
    ));
}

#[test]
fn metadata_is_taken_over() {
    assert!(CloneReply::from_counts(true, 1) == CloneReply::Cloned);
    assert!(CloneReply::from_counts(true, 0) == CloneReply::AlreadyThere);
    assert!(CloneReply::from_counts(false, 0) == CloneReply::NoSource);
    let id = Uuid { value: 5 };
    assert!(matches!(
        AudioMetadataService::clone_from_source_background(
            id,
            "h".into(),
            Ok(CloneReply::NoSource)
        ),
        Some(FileAction::CloneOrExtractAudio { id: next, blob_hash })
            if next == id && blob_hash == "h"
    ));
    assert!(matches!(
        AudioMetadataService::clone_or_extract_background(id, "h".into(), Ok(CloneReply::NoSource)),
        Some(FileAction::ExtractAudio { id: next, blob_hash }) if next == id && blob_hash == "h"
    ));
    for reply in [Ok(CloneReply::Cloned), Ok(CloneReply::AlreadyThere), Err("x".to_string())] {
        assert!(AudioMetadataService::clone_from_source_background(
            id,
            "h".into(),
            reply.clone()
        )
        .is_none());
        assert!(
            AudioMetadataService::clone_or_extract_background(id, "h".into(), reply).is_none()
        );
    }
}

#[test]
fn metadata_that_is_there_is_not_read_again() {
    let mut table = HashMap::from([(1, "row of one"), (2, "row of two")]);
    let mut take_over = |new: u128, source: u128| {
        let found = table.get(&source).copied();
        let inserted = match found {
            Some(row) if !table.contains_key(&new) => {
                table.insert(new, row);
                1
            }
            _ => 0,
        };
        let reply = CloneReply::from_counts(found.is_some(), inserted);
        let next = AudioMetadataService::clone_or_extract_background(
            Uuid { value: new },
            "h".into(),
            Ok(reply),
        );
        (next.is_some(), table.get(&new).copied())
    };
    assert_eq!(take_over(2, 1), (false, Some("row of two")));
    assert_eq!(take_over(3, 1), (false, Some("row of one")));
    assert_eq!(take_over(4, 9), (true, None));
}

#[test]
fn replaced_metadata_is_deleted_first() {
    let id = Uuid { value: 5 };
    for reply in [Ok(()), Err(DomainError::database_error("down".to_string()))] {
        let first =
            AudioMetadataService::spawn_extraction_with_delete_background(id, "h".to_string());
        assert!(first.file_id == id);
        assert!(matches!(
            first.deleted(reply),
            FileAction::ExtractAudio { id: next, blob_hash } if next == id && blob_hash == "h"
        ));
    }
}

#[test]
fn every_file_of_a_run_is_counted_once() {
    let service = AudioMetadataService::new();
    let row = || AudioFileRow { file_id: Uuid { value: 1 }, blob_hash: "ab".to_string() };
    let mut run = service.reextract_all_audio_metadata();
    for success in [true, false, true, true] {
        run = run.fetched(Ok(row())).unwrap().extracted(success);
    }
    let result = run.finished();
    assert_eq!((result.total, result.processed, result.failed), (4, 3, 1));
}

#[test]
fn a_failed_row_ends_a_run() {
    let run = AudioMetadataService::new().reextract_all_audio_metadata();
    assert!(is_database_error(
        run.fetched(Err("gone".to_string())),
        "Failed to fetch audio file row: gone"
    ));
}

#[test]
fn events_lead_to_actions() {
    let id = Some(Uuid { value: 5 });
    assert_eq!(created_actions(id, "h", "audio/mpeg", true).len(), 1);
    assert!(created_actions(None, "h", "audio/mpeg", true).is_empty());
    assert!(created_actions(id, "h", "image/png", true).is_empty());
    assert_eq!(copied_actions(id, "h", "audio/mpeg", id).len(), 1);
    assert!(copied_actions(id, "h", "audio/mpeg", None).is_empty());
    assert_eq!(updated_actions(id, "h", "audio/mpeg").len(), 1);
    assert!(updated_actions(None, "h", "audio/mpeg").is_empty());
}

use std::sync::Arc;

use oxicloud::audio::AudioMetadataService;
use oxicloud::identifier::Uuid;
use oxicloud::lifecycle::blob::{BlobAction, BlobLifecycleHook, BlobLifecycleService};
use oxicloud::lifecycle::file::{FileAction, FileLifecycleHook, FileLifecycleService};
use oxicloud::thumbnail::hooks::ThumbnailRefreshHook;
use oxicloud::thumbnail::service::ThumbnailService;

const FILE: &str = "00000000-0000-0000-0000-00000000000a";
const OTHER: &str = "00000000-0000-0000-0000-00000000000b";

fn thumbnails() -> ThumbnailService {
    ThumbnailService::new(1, 1, None)
}

fn both() -> FileLifecycleService {
    FileLifecycleService::new()
        .with_hook(Arc::new(ThumbnailRefreshHook::new(thumbnails())))
        .with_hook(Arc::new(AudioMetadataService::new()))
}

#[test]
fn a_service_without_hooks_does_nothing() {
    let service = FileLifecycleService::default();
    assert!(service.on_file_created(FILE, "h", "image/png", true).is_empty());
    assert!(service.on_file_copied(FILE, "h", "audio/mpeg", OTHER).is_empty());
    assert!(service.on_file_updated(FILE, "h", "image/png").is_empty());
    assert!(service.on_file_deleted(FILE).is_empty());
    let service = BlobLifecycleService::default();
    assert!(service.on_blob_created("h", None).is_empty());
    assert!(service.on_blob_deleted("h").is_empty());
}

#[test]
fn new_images_get_thumbnails() {
    let actions = both().on_file_created(FILE, "hash", "image/png", true);
    assert_eq!(actions.len(), 1);
    assert!(matches!(
        &actions[0],
        FileAction::GenerateThumbnails { file_id, blob_hash } if file_id == FILE && blob_hash == "hash"
    ));
    assert!(both().on_file_created(FILE, "hash", "image/png", false).is_empty());
    assert!(both().on_file_created(FILE, "hash", "text/plain", true).is_empty());
}

#[test]
fn new_audio_files_get_metadata() {
    let actions = both().on_file_created(FILE, "hash", "audio/mpeg", true);
    assert!(matches!(
        &actions[..],
        [FileAction::ExtractAudio { id, blob_hash }] if *id == Uuid { value: 10 } && blob_hash == "hash"
    ));
    let actions = both().on_file_created(FILE, "hash", "audio/mpeg", false);
    assert!(matches!(
        &actions[..],
        [FileAction::CloneOrExtractAudio { id, blob_hash }]
            if *id == Uuid { value: 10 } && blob_hash == "hash"
    ));
    assert!(both().on_file_created("nobody", "hash", "audio/mpeg", true).is_empty());
}

#[test]
fn copies_take_metadata_over() {
    let actions = both().on_file_copied(FILE, "hash", "audio/ogg", OTHER);
    assert!(matches!(
        &actions[..],
        [FileAction::CloneAudio { id, source_id, blob_hash }]
            if id.value == 10 && source_id.value == 11 && blob_hash == "hash"
    ));
    assert!(both().on_file_copied(FILE, "hash", "audio/ogg", "nobody").is_empty());
    assert!(both().on_file_copied("nobody", "hash", "audio/ogg", OTHER).is_empty());
    assert!(both().on_file_copied(FILE, "hash", "image/png", OTHER).is_empty());
}

#[test]
fn updates_refresh_what_was_derived() {
    assert!(matches!(
        &both().on_file_updated(FILE, "hash", "image/gif")[..],
        [FileAction::RefreshThumbnails { file_id, blob_hash }]
            if file_id == FILE && blob_hash == "hash"
    ));
    assert!(matches!(
        &both().on_file_updated(FILE, "hash", "audio/flac")[..],
        [FileAction::ReplaceAudio { id, blob_hash }] if id.value == 10 && blob_hash == "hash"
    ));
    assert!(both().on_file_updated("nobody", "hash", "audio/flac").is_empty());
    assert!(both().on_file_updated(FILE, "hash", "text/plain").is_empty());
}

#[test]
fn deleted_files_lose_their_thumbnails() {
    assert!(matches!(
        &both().on_file_deleted(FILE)[..],
        [FileAction::DropThumbnails { file_id }] if file_id == FILE
    ));
}

#[test]
fn deleted_blobs_lose_their_thumbnails() {
    let service = BlobLifecycleService::new()
        .with_hook(Arc::new(thumbnails()))
        .with_hook(Arc::new(thumbnails()));
    assert!(service.on_blob_created("hash", Some("image/png")).is_empty());
    let actions = service.on_blob_deleted("hash");
    assert_eq!(actions.len(), 2);
    for action in &actions {
        assert!(matches!(
            action,
            BlobAction::DropBlobThumbnails { blob_hash } if blob_hash == "hash"
        ));
    }
}

#[test]
fn services_nest_and_keep_their_order() {
    let nested = FileLifecycleService::new()
        .with_hook(Arc::new(both()))
        .with_hook(Arc::new(ThumbnailRefreshHook::new(thumbnails())));
    assert_eq!(nested.hooks.len(), 2);
    assert_eq!(nested.on_file_deleted(FILE).len(), 2);
    assert_eq!(nested.on_file_updated(FILE, "h", "audio/x").len(), 1);
}

//! Audio metadata.

use vstd::prelude::*;
use vstd::string::*;
use vstd::utf8::*;

use crate::audio::{
    copied_actions, created_actions, extract_metadata, updated_actions, AudioFileRow,
    AudioMetadataFields, AudioMetadataService, CloneReply, DeleteMetadata,
    MetadataExtractionResult, ReextractFile, Reextraction, SaveMetadata, TagFields,
};
use crate::errors::{DomainError, ErrorKind};
use crate::identifier;
use crate::identifier::Uuid;
use crate::laws::shared;
use crate::lifecycle::file;
use crate::lifecycle::file::{FileAction, FileLifecycleHook};

verus! {

// ── Reading ─────────────────────────────────────────────────────────────────

/// A tag hands through all that it says of the file: the title, the artist, the
/// album, the genre and the year are those of the tag, missing exactly where
/// the tag has none. A file without a tag has no metadata.
pub proof fn law_metadata_is_that_of_the_tag(
    tag: TagFields,
    measured: Option<i32>,
    metadata: Option<AudioMetadataFields>,
    untagged: Option<AudioMetadataFields>,
)
    requires
        call_ensures(extract_metadata, (Some(tag), measured), metadata),
        call_ensures(extract_metadata, (None::<TagFields>, measured), untagged),
    ensures
        metadata is Some,
        metadata->0.title == tag.title,
        metadata->0.artist == tag.artist,
        metadata->0.album == tag.album,
        metadata->0.genre == tag.genre,
        metadata->0.year == tag.year,
        untagged is None,
{
}

/// The numbers of the track and of the disc are those of the tag, missing
/// exactly where the tag has none; beyond the range of the column they wrap
/// around.
pub proof fn law_track_and_disc_are_those_of_the_tag(
    tag: TagFields,
    measured: Option<i32>,
    metadata: Option<AudioMetadataFields>,
)
    requires
        call_ensures(extract_metadata, (Some(tag), measured), metadata),
    ensures
        metadata->0.track_number is Some <==> tag.track is Some,
        tag.track matches Some(n) ==> (n - metadata->0.track_number->0) % 0x1_0000_0000 == 0,
        tag.track matches Some(n) ==> (n < 0x8000_0000 ==> metadata->0.track_number->0 == n),
        metadata->0.disc_number is Some <==> tag.disc is Some,
        tag.disc matches Some(n) ==> (n - metadata->0.disc_number->0) % 0x1_0000_0000 == 0,
        tag.disc matches Some(n) ==> (n < 0x8000_0000 ==> metadata->0.disc_number->0 == n),
{
}

/// The duration is the one that was measured, else that of the tag, else
/// nought.
pub proof fn law_duration_is_measured_first(
    tag: TagFields,
    measured: Option<i32>,
    metadata: Option<AudioMetadataFields>,
)
    requires
        call_ensures(extract_metadata, (Some(tag), measured), metadata),
    ensures
        measured matches Some(secs) ==> metadata->0.duration_secs == secs,
        measured is None ==> {
            &&& tag.duration is None ==> metadata->0.duration_secs == 0
            &&& tag.duration matches Some(n) ==> (n - metadata->0.duration_secs) % 0x1_0000_0000
                == 0
            &&& tag.duration matches Some(n) ==> (n < 0x8000_0000 ==> metadata->0.duration_secs
                == n)
        },
{
}

/// The artist of the album is the text of the first frame `TPE2`, and missing
/// where there is no such frame.
pub proof fn law_album_artist_is_in_the_first_frame(
    tag: TagFields,
    measured: Option<i32>,
    metadata: Option<AudioMetadataFields>,
    at: int,
)
    requires
        call_ensures(extract_metadata, (Some(tag), measured), metadata),
        0 <= at <= tag.frames@.len(),
        forall|j: int| 0 <= j < at ==> (#[trigger] tag.frames@[j]).id@ != "TPE2"@,
        at < tag.frames@.len() ==> tag.frames@[at].id@ == "TPE2"@,
    ensures
        at < tag.frames@.len() ==> metadata->0.album_artist == tag.frames@[at].text,
        at == tag.frames@.len() ==> metadata->0.album_artist is None,
{
    if at < tag.frames@.len() {
        assert(crate::audio::is_first_album_artist(tag.frames@, at));
    }
}

/// The types of audio files begin with `audio/`, all of them.
pub proof fn law_audio_types_begin_with_audio(mime_type: &str, yes: bool)
    requires
        call_ensures(AudioMetadataService::is_audio_file, (mime_type,), yes),
    ensures
        yes <==> exists|rest: Seq<char>| mime_type@ == #[trigger] ("audio/"@ + rest),
{
    shared::law_prefix(mime_type@, "audio/"@);
}

/// A content lies in a file named by its whole hash, in a directory named by
/// the first two bytes of the hash.
pub proof fn law_contents_lie_below_their_prefix(
    service: AudioMetadataService,
    hash: &str,
    place: (String, String),
)
    requires
        call_ensures(AudioMetadataService::blob_path, (&service, hash), place),
    ensures
        place.1@ == hash@ + ".blob"@,
        encode_utf8(place.0@) == encode_utf8(hash@).subrange(0, 2),
        is_ascii_chars(hash@) ==> place.0@ == hash@.take(2),
{
}

// ── Saving ──────────────────────────────────────────────────────────────────

/// What was read is saved for that file, all of it, in the format `MPEG`; where
/// nothing was read, nothing is saved, and that is no failure. A task that did
/// not end is a failure inside the service.
pub proof fn law_what_was_read_is_saved(
    service: AudioMetadataService,
    file_id: Uuid,
    metadata: AudioMetadataFields,
    reason: String,
    read: Result<Option<SaveMetadata>, DomainError>,
    nothing: Result<Option<SaveMetadata>, DomainError>,
    broken: Result<Option<SaveMetadata>, DomainError>,
)
    requires
        call_ensures(
            AudioMetadataService::extract_and_save,
            (&service, &file_id, Ok::<_, String>(Some(metadata))),
            read,
        ),
        call_ensures(
            AudioMetadataService::extract_and_save,
            (&service, &file_id, Ok::<_, String>(None)),
            nothing,
        ),
        call_ensures(
            AudioMetadataService::extract_and_save,
            (&service, &file_id, Err::<Option<AudioMetadataFields>, _>(reason)),
            broken,
        ),
    ensures
        read is Ok && read->Ok_0 is Some,
        read->Ok_0->0.file_id == file_id,
        read->Ok_0->0.metadata == metadata,
        read->Ok_0->0.format@ == "MPEG"@,
        nothing is Ok && nothing->Ok_0 is None,
        broken is Err,
        broken->Err_0.kind == ErrorKind::InternalError,
        broken->Err_0.entity@ == "AudioMetadataService"@,
        broken->Err_0.message@ == "spawn_blocking join error: "@ + reason@,
{
}

/// Saving and deleting succeed exactly where the database succeeds, and report
/// its message otherwise.
pub proof fn law_failures_of_the_database_are_reported(
    reply: Result<(), String>,
    saved: Result<(), DomainError>,
    deleted: Result<(), DomainError>,
)
    requires
        call_ensures(SaveMetadata::saved, (reply,), saved),
        call_ensures(AudioMetadataService::delete_metadata, (reply,), deleted),
    ensures
        saved is Ok <==> reply is Ok,
        deleted is Ok <==> reply is Ok,
        reply matches Err(e) ==> {
            &&& saved->Err_0.kind == ErrorKind::DatabaseError
            &&& saved->Err_0.entity@ == "Database"@
            &&& saved->Err_0.message@ == "Failed to save audio metadata: "@ + e@
            &&& deleted->Err_0.kind == ErrorKind::DatabaseError
            &&& deleted->Err_0.entity@ == "Database"@
            &&& deleted->Err_0.message@ == "Failed to delete audio metadata: "@ + e@
        },
{
}

// ── Taking over ─────────────────────────────────────────────────────────────

/// A row that was inserted was taken over. Where none was, the file has one
/// already if there was something to take over, and else there was nothing.
pub proof fn law_rows_tell_what_was_taken_over(
    source_found: bool,
    inserted: u64,
    reply: CloneReply,
)
    requires
        call_ensures(CloneReply::from_counts, (source_found, inserted), reply),
    ensures
        reply == CloneReply::Cloned <==> inserted > 0,
        reply == CloneReply::AlreadyThere <==> inserted == 0 && source_found,
        reply == CloneReply::NoSource <==> inserted == 0 && !source_found,
{
}

/// The content is read only where there is nothing to take over: after a copy
/// other files with the content are asked first, and only then is the content
/// read, for the same file and of the same content.
pub proof fn law_contents_are_read_only_without_a_source(
    id: Uuid,
    blob_hash: String,
    reply: Result<CloneReply, String>,
    copied: Option<FileAction>,
    shared: Option<FileAction>,
)
    requires
        call_ensures(
            AudioMetadataService::clone_from_source_background,
            (id, blob_hash, reply),
            copied,
        ),
        call_ensures(
            AudioMetadataService::clone_or_extract_background,
            (id, blob_hash, reply),
            shared,
        ),
    ensures
        copied is Some <==> reply == Ok::<_, String>(CloneReply::NoSource),
        shared is Some <==> reply == Ok::<_, String>(CloneReply::NoSource),
        copied matches Some(next) ==> next == (FileAction::CloneOrExtractAudio { id, blob_hash }),
        shared matches Some(next) ==> next == (FileAction::ExtractAudio { id, blob_hash }),
{
}

/// Replacing the metadata of a file deletes the metadata of that file first and
/// then, whatever became of that, reads it from the new content.
pub proof fn law_replacing_deletes_and_reads(
    id: Uuid,
    blob_hash: String,
    first: DeleteMetadata,
    reply: Result<(), DomainError>,
    next: FileAction,
)
    requires
        call_ensures(
            AudioMetadataService::spawn_extraction_with_delete_background,
            (id, blob_hash),
            first,
        ),
        call_ensures(DeleteMetadata::deleted, (first, reply), next),
    ensures
        first.file_id == id,
        next == (FileAction::ExtractAudio { id, blob_hash }),
{
}

// ── Reading all anew ────────────────────────────────────────────────────────

/// A run begins with nothing counted.
pub proof fn law_runs_begin_at_nought(
    service: AudioMetadataService,
    run: Reextraction,
    result: MetadataExtractionResult,
)
    requires
        call_ensures(AudioMetadataService::reextract_all_audio_metadata, (&service,), run),
        call_ensures(Reextraction::finished, (run,), result),
    ensures
        result.total == 0 && result.processed == 0 && result.failed == 0,
{
}

/// Each file that a run comes to is handed out as it is, counts once, and
/// counts as processed or as failed by what became of it.
pub proof fn law_runs_count_every_file_once(
    run: Reextraction,
    before: MetadataExtractionResult,
    row: AudioFileRow,
    file: Result<ReextractFile, DomainError>,
    shown: &AudioFileRow,
    success: bool,
    next: Reextraction,
    after: MetadataExtractionResult,
    total: usize,
)
    requires
        call_ensures(Reextraction::finished, (run,), before),
        before.total < usize::MAX,
        call_ensures(Reextraction::fetched, (run, Ok::<_, String>(row)), file),
        file is Ok,
        call_ensures(ReextractFile::row, (&file->Ok_0,), shown),
        call_ensures(ReextractFile::extracted, (file->Ok_0, success), next),
        call_ensures(Reextraction::finished, (next,), after),
        call_ensures(Reextraction::total, (&next,), total),
    ensures
        *shown == row,
        after.total == before.total + 1,
        after.processed == before.processed + if success { 1int } else { 0 },
        after.failed == before.failed + if success { 0int } else { 1 },
        after.total == after.processed + after.failed,
        total == after.total,
{
}

/// A row that cannot be fetched ends a run, with the message of the database; any
/// other does not.
pub proof fn law_failed_rows_end_a_run(
    run: Reextraction,
    row: Result<AudioFileRow, String>,
    file: Result<ReextractFile, DomainError>,
)
    requires
        call_ensures(Reextraction::fetched, (run, row), file),
    ensures
        file is Ok <==> row is Ok,
        row matches Err(e) ==> file->Err_0.kind == ErrorKind::DatabaseError
            && file->Err_0.entity@ == "Database"@ && file->Err_0.message@ == "Failed to fetch audio file row: "@ + e@,
{
}

// ── Events ──────────────────────────────────────────────────────────────────

/// All there is to do is to read the metadata of that file from that content.
pub open spec fn only_extracts(actions: Seq<FileAction>, file_id: Uuid, hash: Seq<char>) -> bool {
    &&& actions.len() == 1
    &&& actions[0] matches FileAction::ExtractAudio { id, blob_hash }
    &&& id == file_id
    &&& blob_hash@ == hash
}

/// All there is to do is to take it over from a file with that content, or to
/// read it.
pub open spec fn only_shares(actions: Seq<FileAction>, file_id: Uuid, hash: Seq<char>) -> bool {
    &&& actions.len() == 1
    &&& actions[0] matches FileAction::CloneOrExtractAudio { id, blob_hash }
    &&& id == file_id
    &&& blob_hash@ == hash
}

/// All there is to do is to replace it by that of that content.
pub open spec fn only_replaces(actions: Seq<FileAction>, file_id: Uuid, hash: Seq<char>) -> bool {
    &&& actions.len() == 1
    &&& actions[0] matches FileAction::ReplaceAudio { id, blob_hash }
    &&& id == file_id
    &&& blob_hash@ == hash
}

/// All there is to do is to take it over from that file.
pub open spec fn only_clones(
    actions: Seq<FileAction>,
    file_id: Uuid,
    source: Uuid,
    hash: Seq<char>,
) -> bool {
    &&& actions.len() == 1
    &&& actions[0] matches FileAction::CloneAudio { id, source_id, blob_hash }
    &&& id == file_id
    &&& source_id == source
    &&& blob_hash@ == hash
}

/// A new audio file whose content is new has its metadata read from the
/// content; one whose content was there has it taken over. Nothing is done for
/// other files, nor without an identifier.
pub proof fn law_created_audio_files_get_metadata(
    file_id: Option<Uuid>,
    blob_hash: &str,
    content_type: &str,
    is_new_blob: bool,
    actions: Vec<FileAction>,
)
    requires
        call_ensures(created_actions, (file_id, blob_hash, content_type, is_new_blob), actions),
    ensures
        ({
            let audio = exists|rest: Seq<char>| content_type@ == #[trigger] ("audio/"@ + rest);
            &&& !audio || file_id is None ==> actions@.len() == 0
            &&& file_id matches Some(id) ==> (audio && is_new_blob ==> only_extracts(actions@, id, blob_hash@))
            &&& file_id matches Some(id) ==> (audio && !is_new_blob ==> only_shares(actions@, id, blob_hash@))
        }),
{
    shared::law_prefix(content_type@, "audio/"@);
    lemma_views(actions@);
}

/// A copy of an audio file takes over the metadata of the file that was copied.
pub proof fn law_copied_audio_files_get_metadata(
    file_id: Option<Uuid>,
    blob_hash: &str,
    content_type: &str,
    source: Option<Uuid>,
    actions: Vec<FileAction>,
)
    requires
        call_ensures(copied_actions, (file_id, blob_hash, content_type, source), actions),
    ensures
        ({
            let audio = exists|rest: Seq<char>| content_type@ == #[trigger] ("audio/"@ + rest);
            &&& !audio || file_id is None || source is None ==> actions@.len() == 0
            &&& audio && file_id is Some && source is Some ==> only_clones(actions@, file_id->0, source->0, blob_hash@)
        }),
{
    shared::law_prefix(content_type@, "audio/"@);
    lemma_views(actions@);
}

/// An audio file whose content was replaced has its metadata replaced.
pub proof fn law_updated_audio_files_get_metadata(
    file_id: Option<Uuid>,
    blob_hash: &str,
    content_type: &str,
    actions: Vec<FileAction>,
)
    requires
        call_ensures(updated_actions, (file_id, blob_hash, content_type), actions),
    ensures
        ({
            let audio = exists|rest: Seq<char>| content_type@ == #[trigger] ("audio/"@ + rest);
            &&& !audio || file_id is None ==> actions@.len() == 0
            &&& audio && file_id is Some ==> only_replaces(actions@, file_id->0, blob_hash@)
        }),
{
    shared::law_prefix(content_type@, "audio/"@);
    lemma_views(actions@);
}

proof fn lemma_views(actions: Seq<FileAction>)
    ensures
        file::actions_view(actions).len() == actions.len(),
        forall|i: int|
            0 <= i < actions.len() ==> file::actions_view(actions)[i] == (#[trigger] actions[i])@,
{
}

/// The handler answers the events of a file by the identifier that its text
/// denotes, in the same way; the deletion of a file it answers with nothing.
pub proof fn law_audio_events_are_answered(
    service: AudioMetadataService,
    file_id: &str,
    blob_hash: &str,
    content_type: &str,
    is_new_blob: bool,
    source_file_id: &str,
    created: Vec<FileAction>,
    copied: Vec<FileAction>,
    updated: Vec<FileAction>,
    deleted: Vec<FileAction>,
)
    requires
        call_ensures(
            <AudioMetadataService as FileLifecycleHook>::on_file_created,
            (&service, file_id, blob_hash, content_type, is_new_blob),
            created,
        ),
        call_ensures(
            <AudioMetadataService as FileLifecycleHook>::on_file_copied,
            (&service, file_id, blob_hash, content_type, source_file_id),
            copied,
        ),
        call_ensures(
            <AudioMetadataService as FileLifecycleHook>::on_file_updated,
            (&service, file_id, blob_hash, content_type),
            updated,
        ),
        call_ensures(
            <AudioMetadataService as FileLifecycleHook>::on_file_deleted,
            (&service, file_id),
            deleted,
        ),
    ensures
        ({
            let audio = exists|rest: Seq<char>| content_type@ == #[trigger] ("audio/"@ + rest);
            let id = identifier::parsed_uuid(file_id@);
            let source = identifier::parsed_uuid(source_file_id@);
            &&& !audio || id is None ==> created@.len() == 0 && copied@.len() == 0
                && updated@.len() == 0
            &&& audio && id is Some ==> {
                &&& is_new_blob ==> only_extracts(created@, Uuid { value: id->0 }, blob_hash@)
                &&& !is_new_blob ==> only_shares(created@, Uuid { value: id->0 }, blob_hash@)
                &&& only_replaces(updated@, Uuid { value: id->0 }, blob_hash@)
                &&& source is None ==> copied@.len() == 0
                &&& source is Some ==> only_clones(
                    copied@,
                    Uuid { value: id->0 },
                    Uuid { value: source->0 },
                    blob_hash@,
                )
            }
            &&& deleted@.len() == 0
        }),
{
    shared::law_prefix(content_type@, "audio/"@);
    lemma_views(created@);
    lemma_views(copied@);
    lemma_views(updated@);
    lemma_views(deleted@);
}

} // verus!

//! Metadata of audio files.
//!
//! Reading tags and durations from files and the database lie outside. Each
//! type below stands for one request to them; the method that takes the reply
//! says what comes next.

use vstd::prelude::*;
use vstd::string::*;
use vstd::utf8::*;

use crate::errors::{DomainError, ErrorKind};
use crate::identifier;
use crate::identifier::Uuid;
use crate::lifecycle::file;
use crate::lifecycle::file::{FileAction, FileActionView, FileLifecycleHook};
use crate::numbers;
use crate::numbers::to_signed_32;
use crate::text::{same_text, starts_with};

verus! {

/// The format that is recorded with all metadata.
pub const AUDIO_FORMAT: &'static str = "MPEG";

/// An audio file and its content.
#[derive(Debug)]
pub struct AudioFileRow {
    pub file_id: Uuid,
    pub blob_hash: String,
}

/// One frame of a tag: its identifier, and its text where it holds one.
#[derive(Debug)]
pub struct TagFrame {
    pub id: String,
    pub text: Option<String>,
}

/// What is read from a tag.
#[derive(Debug)]
pub struct TagFields {
    pub title: Option<String>,
    pub artist: Option<String>,
    pub album: Option<String>,
    pub genre: Option<String>,
    pub track: Option<u32>,
    pub disc: Option<u32>,
    pub year: Option<i32>,
    pub duration: Option<u32>,
    pub frames: Vec<TagFrame>,
}

/// The metadata of an audio file.
#[derive(Debug)]
pub struct AudioMetadataFields {
    pub title: Option<String>,
    pub artist: Option<String>,
    pub album: Option<String>,
    pub album_artist: Option<String>,
    pub genre: Option<String>,
    pub track_number: Option<i32>,
    pub disc_number: Option<i32>,
    pub year: Option<i32>,
    pub duration_secs: i32,
}

/// How many files the metadata was read anew for.
#[derive(Clone, Copy, PartialEq, Eq, Structural, Debug)]
pub struct MetadataExtractionResult {
    pub total: usize,
    pub processed: usize,
    pub failed: usize,
}

/// The service of the audio metadata.
#[derive(Clone, Copy, Debug)]
pub struct AudioMetadataService {}

// ── From tags to metadata ───────────────────────────────────────────────────

/// A number that may be missing, taken with a sign.
pub open spec fn optional_with_sign(n: Option<u32>) -> Option<int> {
    match n {
        Some(n) => Some(numbers::signed_32(n)),
        None => None,
    }
}

/// A number that may be missing as a mathematical one.
pub open spec fn optional_int(n: Option<i32>) -> Option<int> {
    match n {
        Some(n) => Some(n as int),
        None => None,
    }
}

fn optional_to_signed(n: Option<u32>) -> (signed: Option<i32>)
    ensures
        optional_int(signed) == optional_with_sign(n),
{
    match n {
        Some(n) => Some(to_signed_32(n)),
        None => None,
    }
}

/// `at` is the first frame for the artist of the album.
pub open spec fn is_first_album_artist(frames: Seq<TagFrame>, at: int) -> bool {
    &&& 0 <= at < frames.len()
    &&& frames[at].id@ == "TPE2"@
    &&& forall|j: int| 0 <= j < at ==> (#[trigger] frames[j]).id@ != "TPE2"@
}

/// `artist` is the text of the first frame for the artist of the album. It is
/// missing where there is no such frame or where that frame holds no text.
pub open spec fn is_album_artist(frames: Seq<TagFrame>, artist: Option<String>) -> bool {
    &&& forall|at: int| #[trigger] is_first_album_artist(frames, at) ==> artist == frames[at].text
    &&& (forall|j: int| 0 <= j < frames.len() ==> (#[trigger] frames[j]).id@ != "TPE2"@) ==> artist
        is None
}

fn copy_text(text: &Option<String>) -> (copy: Option<String>)
    ensures
        copy == *text,
{
    match text {
        Some(t) => Some(t.clone()),
        None => None,
    }
}

fn album_artist(frames: &Vec<TagFrame>) -> (artist: Option<String>)
    ensures
        is_album_artist(frames@, artist),
{
    let mut i: usize = 0;
    while i < frames.len()
        invariant
            i <= frames@.len(),
            forall|j: int| 0 <= j < i ==> (#[trigger] frames@[j]).id@ != "TPE2"@,
        decreases frames@.len() - i,
    {
        if same_text(frames[i].id.as_str(), "TPE2") {
            let artist = copy_text(&frames[i].text);
            proof {
                assert forall|at: int| #[trigger]
                    is_first_album_artist(frames@, at) implies artist == frames@[at].text by {
                    if at > i {
                        assert(frames@[i as int].id@ != "TPE2"@);
                    } else if at < i {
                        assert(frames@[at].id@ != "TPE2"@);
                    }
                }
                assert(frames@[i as int].id@ == "TPE2"@);
            }
            return artist;
        }
        i += 1;
    }
    None
}

/// `fields` is the metadata that the tag holds. The duration is that of the
/// audio data where it could be measured, else that of the tag, else nought.
pub open spec fn describes(
    fields: AudioMetadataFields,
    tag: TagFields,
    measured_secs: Option<i32>,
) -> bool {
    &&& fields.title == tag.title
    &&& fields.artist == tag.artist
    &&& fields.album == tag.album
    &&& is_album_artist(tag.frames@, fields.album_artist)
    &&& fields.genre == tag.genre
    &&& optional_int(fields.track_number) == optional_with_sign(tag.track)
    &&& optional_int(fields.disc_number) == optional_with_sign(tag.disc)
    &&& fields.year == tag.year
    &&& fields.duration_secs == match measured_secs {
        Some(secs) => secs as int,
        None => match tag.duration {
            Some(duration) => numbers::signed_32(duration),
            None => 0,
        },
    }
}

/// The metadata from what was read of a file: its tag, where it has a
/// readable one, and the seconds that it plays, where they could be measured.
pub fn extract_metadata(tag: Option<TagFields>, measured_secs: Option<i32>) -> (metadata: Option<
    AudioMetadataFields,
>)
    ensures
        match tag {
            Some(t) => metadata is Some && describes(metadata->0, t, measured_secs),
            None => metadata is None,
        },
{
    match tag {
        None => None,
        Some(t) => {
            let duration_secs: i32 = match measured_secs {
                Some(secs) => secs,
                None => match t.duration {
                    Some(duration) => to_signed_32(duration),
                    None => 0,
                },
            };
            let album_artist = album_artist(&t.frames);
            Some(
                AudioMetadataFields {
                    title: t.title,
                    artist: t.artist,
                    album: t.album,
                    album_artist,
                    genre: t.genre,
                    track_number: optional_to_signed(t.track),
                    disc_number: optional_to_signed(t.disc),
                    year: t.year,
                    duration_secs,
                },
            )
        },
    }
}

// ── The service ─────────────────────────────────────────────────────────────

/// Files of this type are audio files.
pub open spec fn is_audio(mime_type: Seq<char>) -> bool {
    "audio/"@.is_prefix_of(mime_type)
}

/// The directory and the file in which a content is stored below the root:
/// the directory is named by the first two bytes of its hash.
pub open spec fn is_blob_place(dir: Seq<char>, name: Seq<char>, hash: Seq<char>) -> bool {
    &&& encode_utf8(dir) == encode_utf8(hash).subrange(0, 2)
    &&& name == hash + ".blob"@
}

proof fn lemma_ascii_prefix(hash: Seq<char>, prefix: Seq<char>)
    requires
        is_ascii_chars(hash),
        is_char_boundary(encode_utf8(hash), 2),
        encode_utf8(prefix) == encode_utf8(hash).subrange(0, 2),
    ensures
        prefix == hash.take(2),
{
    broadcast use {encode_utf8_valid_utf8, encode_utf8_decode_utf8};

    let head = hash.take(2);
    is_ascii_chars_encode_utf8(hash);
    assert(encode_utf8(hash).len() == hash.len());
    assert(hash.len() >= 2) by {
        reveal_with_fuel(is_char_boundary, 3);
    }
    assert(is_ascii_chars(head));
    is_ascii_chars_encode_utf8(head);
    assert(encode_utf8(head) =~= encode_utf8(hash).subrange(0, 2));
    assert(decode_utf8(encode_utf8(head)) == head);
    assert(decode_utf8(encode_utf8(prefix)) == prefix);
}

/// `outcome` is that failure of the database.
pub open spec fn is_database_error<T>(
    outcome: Result<T, DomainError>,
    message: Seq<char>,
) -> bool {
    outcome is Err && outcome->Err_0.says(ErrorKind::DatabaseError, "Database"@, message)
}

/// `next` follows from what became of the task that read the metadata.
pub open spec fn is_extraction(
    file_id: Uuid,
    reply: Result<Option<AudioMetadataFields>, String>,
    next: Result<Option<SaveMetadata>, DomainError>,
) -> bool {
    match reply {
        Err(e) => next is Err && next->Err_0.says(
            ErrorKind::InternalError,
            "AudioMetadataService"@,
            "spawn_blocking join error: "@ + e@,
        ),
        Ok(None) => next == Ok::<Option<SaveMetadata>, DomainError>(None),
        Ok(Some(metadata)) => {
            &&& next matches Ok(Some(save))
            &&& save.file_id == file_id
            &&& save.metadata == metadata
            &&& save.format@ == "MPEG"@
        },
    }
}

/// Save the metadata of the file, in place of what is saved for it.
pub struct SaveMetadata {
    pub file_id: Uuid,
    pub metadata: AudioMetadataFields,
    pub format: &'static str,
}

/// What a request to take metadata over led to.
#[derive(Clone, Copy, PartialEq, Eq, Structural, Debug)]
pub enum CloneReply {
    /// It was taken over.
    Cloned,
    /// There is metadata to take over, but the file has its own already, which
    /// stays.
    AlreadyThere,
    /// There is none to take over.
    NoSource,
}

impl CloneReply {
    /// The reply, from whether there is metadata to take over and how many
    /// rows were inserted. No row is inserted where the file has one.
    pub fn from_counts(source_found: bool, inserted: u64) -> (reply: CloneReply)
        ensures
            reply == (if inserted > 0 {
                CloneReply::Cloned
            } else if source_found {
                CloneReply::AlreadyThere
            } else {
                CloneReply::NoSource
            }),
    {
        if inserted > 0 {
            CloneReply::Cloned
        } else if source_found {
            CloneReply::AlreadyThere
        } else {
            CloneReply::NoSource
        }
    }
}

/// What follows where metadata is taken over from a file with the same
/// content: it is read from the content only where there is none to take over.
pub open spec fn after_clone_or_extract(
    file_id: Uuid,
    blob_hash: String,
    reply: Result<CloneReply, String>,
) -> Option<FileAction> {
    match reply {
        Ok(CloneReply::NoSource) => Some(FileAction::ExtractAudio { id: file_id, blob_hash }),
        _ => None,
    }
}

impl AudioMetadataService {
    pub fn new() -> AudioMetadataService {
        AudioMetadataService {  }
    }

    pub fn is_audio_file(mime_type: &str) -> (yes: bool)
        ensures
            yes == is_audio(mime_type@),
    {
        starts_with(mime_type, "audio/")
    }

    /// The directory and the name of the file that holds a content.
    pub fn blob_path(&self, hash: &str) -> (place: (String, String))
        requires
            is_char_boundary(encode_utf8(hash@), 2),
        ensures
            is_blob_place(place.0@, place.1@, hash@),
            is_ascii_chars(hash@) ==> place.0@ == hash@.take(2),
    {
        let (prefix, _) = hash.split_at(2);
        proof {
            if is_ascii_chars(hash@) {
                lemma_ascii_prefix(hash@, prefix@);
            }
        }
        (prefix.to_owned(), hash.to_owned().concat(".blob"))
    }

    /// Takes what became of the task that read the metadata; its error is the
    /// reason why the task could not be brought to its end. A file without
    /// readable metadata is no failure: there is nothing to save.
    pub fn extract_and_save(
        &self,
        file_id: &Uuid,
        reply: Result<Option<AudioMetadataFields>, String>,
    ) -> (next: Result<Option<SaveMetadata>, DomainError>)
        ensures
            is_extraction(*file_id, reply, next),
    {
        match reply {
            Err(e) => Err(
                DomainError::internal_error(
                    "AudioMetadataService",
                    "spawn_blocking join error: ".to_owned().concat(e.as_str()),
                ),
            ),
            Ok(None) => Ok(None),
            Ok(Some(metadata)) => Ok(
                Some(SaveMetadata { file_id: *file_id, metadata, format: AUDIO_FORMAT }),
            ),
        }
    }

    /// The outcome of deleting the metadata of a file.
    pub fn delete_metadata(reply: Result<(), String>) -> (outcome: Result<(), DomainError>)
        ensures
            match reply {
                Ok(()) => outcome == Ok::<(), DomainError>(()),
                Err(e) => is_database_error(outcome, "Failed to delete audio metadata: "@ + e@),
            },
    {
        match reply {
            Ok(()) => Ok(()),
            Err(e) => Err(
                DomainError::database_error(
                    "Failed to delete audio metadata: ".to_owned().concat(e.as_str()),
                ),
            ),
        }
    }

    /// Begins to read the metadata of all audio files anew. A run that begins
    /// here and goes over any files counts all of them, those whose metadata
    /// could be read and saved, and the others.
    pub fn reextract_all_audio_metadata(&self) -> (run: Reextraction)
        ensures
            run@ == (MetadataExtractionResult { total: 0, processed: 0, failed: 0 }),
            forall|files: Seq<(AudioFileRow, bool)>|
                files.len() <= usize::MAX ==> counts(#[trigger] counted_over(run@, files), files),
    {
        let run = Reextraction {
            done: MetadataExtractionResult { total: 0, processed: 0, failed: 0 },
        };
        proof {
            assert forall|files: Seq<(AudioFileRow, bool)>| files.len() <= usize::MAX implies counts(
                #[trigger] counted_over(run@, files),
                files,
            ) by {
                lemma_run_counts_files(run@, files);
            }
        }
        run
    }

    /// Takes over the metadata of the file that was copied. Where that has
    /// none yet, a file with the same content is the next source. A failure of
    /// the database ends the attempt.
    pub fn clone_from_source_background(
        new_file_id: Uuid,
        blob_hash: String,
        reply: Result<CloneReply, String>,
    ) -> (next: Option<FileAction>)
        ensures
            next == match reply {
                Ok(CloneReply::NoSource) => Some(
                    FileAction::CloneOrExtractAudio { id: new_file_id, blob_hash },
                ),
                _ => None,
            },
    {
        match reply {
            Ok(CloneReply::NoSource) => Some(
                FileAction::CloneOrExtractAudio { id: new_file_id, blob_hash },
            ),
            _ => None,
        }
    }

    /// Takes over the metadata of a file with the same content. Where none has
    /// any, it is read from the content. A failure of the database ends the
    /// attempt.
    pub fn clone_or_extract_background(
        new_file_id: Uuid,
        blob_hash: String,
        reply: Result<CloneReply, String>,
    ) -> (next: Option<FileAction>)
        ensures
            next == after_clone_or_extract(new_file_id, blob_hash, reply),
    {
        match reply {
            Ok(CloneReply::NoSource) => Some(
                FileAction::ExtractAudio { id: new_file_id, blob_hash },
            ),
            _ => None,
        }
    }

    /// Reads the metadata of a file whose content was replaced. What was read
    /// from the content before is deleted first.
    pub fn spawn_extraction_with_delete_background(file_id: Uuid, blob_hash: String) -> (first:
        DeleteMetadata)
        ensures
            first == (DeleteMetadata { file_id, blob_hash }),
    {
        DeleteMetadata { file_id, blob_hash }
    }
}

/// Delete the metadata of the file; that of its new content follows.
#[derive(Debug)]
pub struct DeleteMetadata {
    pub file_id: Uuid,
    pub blob_hash: String,
}

impl DeleteMetadata {
    /// The metadata was deleted, or not. A failure does not keep the new
    /// metadata from being read.
    pub fn deleted(self, _reply: Result<(), DomainError>) -> (next: FileAction)
        ensures
            next == (FileAction::ExtractAudio { id: self.file_id, blob_hash: self.blob_hash }),
    {
        FileAction::ExtractAudio { id: self.file_id, blob_hash: self.blob_hash }
    }
}

impl SaveMetadata {
    /// The outcome of saving the metadata.
    pub fn saved(reply: Result<(), String>) -> (outcome: Result<(), DomainError>)
        ensures
            is_save_outcome(reply, outcome),
    {
        match reply {
            Ok(()) => Ok(()),
            Err(e) => Err(
                DomainError::database_error(
                    "Failed to save audio metadata: ".to_owned().concat(e.as_str()),
                ),
            ),
        }
    }
}

/// `outcome` is that of saving metadata.
pub open spec fn is_save_outcome(
    reply: Result<(), String>,
    outcome: Result<(), DomainError>,
) -> bool {
    match reply {
        Ok(()) => outcome == Ok::<(), DomainError>(()),
        Err(e) => is_database_error(outcome, "Failed to save audio metadata: "@ + e@),
    }
}

// ── What is saved ───────────────────────────────────────────────────────────

/// What is saved for one file: its metadata and the format.
pub struct MetadataRow {
    pub metadata: AudioMetadataFields,
    pub format: Seq<char>,
}

/// The table of the metadata, with one row for a file at most.
pub type MetadataTable = Map<Uuid, MetadataRow>;

impl SaveMetadata {
    /// The table after this was saved: the row of the file is there with just
    /// these fields, whatever was there before.
    pub open spec fn saved_in(self, table: MetadataTable) -> MetadataTable {
        table.insert(self.file_id, MetadataRow { metadata: self.metadata, format: self.format@ })
    }
}

/// The table after what follows from reading the metadata; `written` is the
/// reply to saving it, where there is something to save.
pub open spec fn after_extraction(
    table: MetadataTable,
    next: Result<Option<SaveMetadata>, DomainError>,
    written: Result<(), String>,
) -> MetadataTable {
    match next {
        Ok(Some(save)) => if written is Ok {
            save.saved_in(table)
        } else {
            table
        },
        _ => table,
    }
}

/// `outcome` is how reading and saving the metadata ends.
pub open spec fn ends_extraction(
    next: Result<Option<SaveMetadata>, DomainError>,
    written: Result<(), String>,
    outcome: Result<(), DomainError>,
) -> bool {
    match next {
        Err(e) => outcome == Err::<(), DomainError>(e),
        Ok(None) => outcome == Ok::<(), DomainError>(()),
        Ok(Some(_)) => is_save_outcome(written, outcome),
    }
}

/// Where nothing fails, reading and saving the metadata of a file succeeds. It
/// leaves the table as it was where nothing could be read, and else exactly one
/// row for the file with just what was read, in every field, and all other rows
/// as they were. Where it fails, the table is as it was.
pub proof fn law_extraction_replaces_the_row_of_the_file(
    table: MetadataTable,
    file_id: Uuid,
    reply: Result<Option<AudioMetadataFields>, String>,
    next: Result<Option<SaveMetadata>, DomainError>,
    written: Result<(), String>,
    outcome: Result<(), DomainError>,
)
    requires
        is_extraction(file_id, reply, next),
        ends_extraction(next, written, outcome),
    ensures
        ({
            let after = after_extraction(table, next, written);
            &&& reply is Ok && written is Ok ==> outcome is Ok
            &&& outcome is Err ==> after == table
            &&& reply matches Ok(None) ==> outcome is Ok && after == table
            &&& reply matches Ok(Some(metadata)) ==> (outcome is Ok ==> {
                &&& after.dom() == table.dom().insert(file_id)
                &&& after[file_id] == (MetadataRow { metadata, format: "MPEG"@ })
                &&& forall|other: Uuid|
                    other != file_id && table.contains_key(other) ==> #[trigger] after[other]
                        == table[other]
            })
        }),
{
}

/// The table after a request to take metadata over from the file `source`,
/// where there is one with metadata: a row that is there already stays.
pub open spec fn after_cloning(
    table: MetadataTable,
    file_id: Uuid,
    source: Option<Uuid>,
) -> MetadataTable {
    match source {
        Some(from) => if table.contains_key(from) && !table.contains_key(file_id) {
            table.insert(file_id, table[from])
        } else {
            table
        },
        None => table,
    }
}

/// The reply to that request.
pub open spec fn cloning_reply(
    table: MetadataTable,
    file_id: Uuid,
    source: Option<Uuid>,
) -> CloneReply {
    match source {
        Some(from) => if !table.contains_key(from) {
            CloneReply::NoSource
        } else if table.contains_key(file_id) {
            CloneReply::AlreadyThere
        } else {
            CloneReply::Cloned
        },
        None => CloneReply::NoSource,
    }
}

/// `source` is a file with that content that has metadata, where there is one.
/// `contents` holds the hash of the content of each file.
pub open spec fn is_source(
    contents: Map<Uuid, Seq<char>>,
    table: MetadataTable,
    blob_hash: Seq<char>,
    source: Option<Uuid>,
) -> bool {
    match source {
        Some(from) => has_metadata_of(contents, table, blob_hash, from),
        None => forall|from: Uuid| !#[trigger] has_metadata_of(contents, table, blob_hash, from),
    }
}

/// The file has that content and has metadata.
pub open spec fn has_metadata_of(
    contents: Map<Uuid, Seq<char>>,
    table: MetadataTable,
    blob_hash: Seq<char>,
    file_id: Uuid,
) -> bool {
    contents.contains_key(file_id) && contents[file_id] == blob_hash && table.contains_key(file_id)
}

/// Metadata is read from a content only where no file with that content has
/// any. Where one has, the new file has the same afterwards, or keeps the row
/// that it had; no other row changes.
pub proof fn law_metadata_is_taken_over_where_there_is_any(
    contents: Map<Uuid, Seq<char>>,
    table: MetadataTable,
    file_id: Uuid,
    blob_hash: String,
    source: Option<Uuid>,
    next: Option<FileAction>,
)
    requires
        is_source(contents, table, blob_hash@, source),
        next == after_clone_or_extract(file_id, blob_hash, Ok(cloning_reply(table, file_id, source))),
    ensures
        ({
            let after = after_cloning(table, file_id, source);
            &&& next is Some <==> forall|from: Uuid|
                !#[trigger] has_metadata_of(contents, table, blob_hash@, from)
            &&& next is Some ==> after == table && next == Some(
                FileAction::ExtractAudio { id: file_id, blob_hash },
            )
            &&& next is None ==> after.contains_key(file_id) && after[file_id] == (
            if table.contains_key(file_id) {
                table[file_id]
            } else {
                table[source->0]
            })
            &&& table.contains_key(file_id) ==> after == table
            &&& forall|other: Uuid|
                other != file_id ==> (#[trigger] after.contains_key(other) <==> table.contains_key(
                    other,
                )) && (table.contains_key(other) ==> after[other] == table[other])
        }),
{
}

/// A file that has metadata keeps it when metadata is taken over for it: the
/// content is not read again, whatever the file that was copied has. The file
/// itself is then one with that content.
pub proof fn law_metadata_of_a_copy_stays(
    contents: Map<Uuid, Seq<char>>,
    table: MetadataTable,
    file_id: Uuid,
    copied: Uuid,
    blob_hash: Seq<char>,
    source: Option<Uuid>,
)
    requires
        has_metadata_of(contents, table, blob_hash, file_id),
        is_source(contents, table, blob_hash, source),
    ensures
        after_cloning(table, file_id, Some(copied)) == table,
        cloning_reply(table, file_id, Some(copied)) != CloneReply::Cloned,
        after_cloning(table, file_id, source) == table,
        cloning_reply(table, file_id, source) == CloneReply::AlreadyThere,
{
}

/// The table after the metadata of a file was replaced: the row is deleted, if
/// that succeeds, and then what was read is saved.
pub open spec fn after_replacing(
    table: MetadataTable,
    request: DeleteMetadata,
    deleted: bool,
    next: Result<Option<SaveMetadata>, DomainError>,
    written: Result<(), String>,
) -> MetadataTable {
    after_extraction(
        if deleted {
            table.remove(request.file_id)
        } else {
            table
        },
        next,
        written,
    )
}

/// Once the content of a file was replaced, nothing that was read from the old
/// one is left, unless the database failed to delete it: the file has the
/// metadata of its new content, or none where that has none or could not be
/// saved. Other files keep theirs.
pub proof fn law_replaced_metadata_is_not_left_behind(
    table: MetadataTable,
    request: DeleteMetadata,
    reply: Result<Option<AudioMetadataFields>, String>,
    next: Result<Option<SaveMetadata>, DomainError>,
    written: Result<(), String>,
)
    requires
        is_extraction(request.file_id, reply, next),
    ensures
        ({
            let after = after_replacing(table, request, true, next, written);
            &&& written is Ok ==> (reply matches Ok(Some(metadata)) ==> after.contains_key(
                request.file_id,
            ) && after[request.file_id] == (MetadataRow { metadata, format: "MPEG"@ }))
            &&& (written is Err || !(reply matches Ok(Some(_)))) ==> !after.contains_key(
                request.file_id,
            )
            &&& forall|other: Uuid|
                other != request.file_id ==> (#[trigger] after.contains_key(other)
                    <==> table.contains_key(other)) && (table.contains_key(other) ==> after[other]
                    == table[other])
        }),
{
}

// ── Reading all metadata anew ───────────────────────────────────────────────

/// A run over all audio files, between two of them. Each file so far either
/// was processed or has failed.
pub struct Reextraction {
    done: MetadataExtractionResult,
}

/// A run over all audio files that has come to a file: read its metadata. One
/// file is counted that has no outcome yet.
pub struct ReextractFile {
    done: MetadataExtractionResult,
    row: AudioFileRow,
}

impl View for Reextraction {
    type V = MetadataExtractionResult;

    closed spec fn view(&self) -> MetadataExtractionResult {
        self.done
    }
}

impl View for ReextractFile {
    type V = (MetadataExtractionResult, AudioFileRow);

    closed spec fn view(&self) -> (MetadataExtractionResult, AudioFileRow) {
        (self.done, self.row)
    }
}

/// The numbers once the run has come to one more file.
pub open spec fn with_file(done: MetadataExtractionResult) -> MetadataExtractionResult {
    MetadataExtractionResult {
        total: (done.total + 1) as usize,
        processed: done.processed,
        failed: done.failed,
    }
}

/// The numbers once it is known whether the metadata of the file could be read
/// and saved.
pub open spec fn with_outcome(
    done: MetadataExtractionResult,
    success: bool,
) -> MetadataExtractionResult {
    MetadataExtractionResult {
        total: done.total,
        processed: (done.processed + if success { 1int } else { 0 }) as usize,
        failed: (done.failed + if success { 0int } else { 1 }) as usize,
    }
}

/// The numbers after these files, each with whether its metadata could be read
/// and saved.
pub open spec fn counted_over(
    done: MetadataExtractionResult,
    files: Seq<(AudioFileRow, bool)>,
) -> MetadataExtractionResult
    decreases files.len(),
{
    if files.len() == 0 {
        done
    } else {
        with_outcome(with_file(counted_over(done, files.drop_last())), files.last().1)
    }
}

impl Reextraction {
    #[verifier::type_invariant]
    spec fn is_settled(self) -> bool {
        self.done.total == self.done.processed + self.done.failed
    }

    /// The number of files so far.
    pub fn total(&self) -> (total: usize)
        ensures
            total == self@.total,
    {
        self.done.total
    }

    /// Takes the next file. A failure of the database ends the run.
    pub fn fetched(self, row: Result<AudioFileRow, String>) -> (next: Result<
        ReextractFile,
        DomainError,
    >)
        requires
            self@.total < usize::MAX,
        ensures
            match row {
                Ok(r) => next is Ok && next->Ok_0@ == (with_file(self@), r),
                Err(e) => is_database_error(next, "Failed to fetch audio file row: "@ + e@),
            },
    {
        proof {
            use_type_invariant(&self);
        }
        match row {
            Ok(row) => Ok(
                ReextractFile {
                    done: MetadataExtractionResult {
                        total: self.done.total + 1,
                        processed: self.done.processed,
                        failed: self.done.failed,
                    },
                    row,
                },
            ),
            Err(e) => Err(
                DomainError::database_error(
                    "Failed to fetch audio file row: ".to_owned().concat(e.as_str()),
                ),
            ),
        }
    }

    /// There are no more files: every one of them was processed or failed.
    pub fn finished(self) -> (result: MetadataExtractionResult)
        ensures
            result == self@,
            result.total == result.processed + result.failed,
    {
        proof {
            use_type_invariant(&self);
        }
        self.done
    }
}

impl ReextractFile {
    #[verifier::type_invariant]
    spec fn lacks_one_outcome(self) -> bool {
        self.done.total == self.done.processed + self.done.failed + 1
    }

    /// The file.
    pub fn row(&self) -> (row: &AudioFileRow)
        ensures
            *row == self@.1,
    {
        &self.row
    }

    /// Takes whether the metadata of the file could be read and saved. A
    /// failure does not end the run.
    pub fn extracted(self, success: bool) -> (next: Reextraction)
        ensures
            next@ == with_outcome(self@.0, success),
            next@.total == self@.0.total,
            next@.processed == self@.0.processed + if success { 1int } else { 0 },
            next@.failed == self@.0.failed + if success { 0int } else { 1 },
    {
        proof {
            use_type_invariant(&self);
        }
        let done = self.done;
        if success {
            Reextraction {
                done: MetadataExtractionResult {
                    total: done.total,
                    processed: done.processed + 1,
                    failed: done.failed,
                },
            }
        } else {
            Reextraction {
                done: MetadataExtractionResult {
                    total: done.total,
                    processed: done.processed,
                    failed: done.failed + 1,
                },
            }
        }
    }
}

/// How many of these files had metadata that could be read and saved.
pub open spec fn succeeded(files: Seq<(AudioFileRow, bool)>) -> nat
    decreases files.len(),
{
    if files.len() == 0 {
        0
    } else {
        succeeded(files.drop_last()) + if files.last().1 { 1nat } else { 0 }
    }
}

/// `result` counts these files, each once.
pub open spec fn counts(
    result: MetadataExtractionResult,
    files: Seq<(AudioFileRow, bool)>,
) -> bool {
    &&& result.total == files.len()
    &&& result.processed == succeeded(files)
    &&& result.failed == files.len() - succeeded(files)
}

proof fn lemma_run_counts_files(
    done: MetadataExtractionResult,
    files: Seq<(AudioFileRow, bool)>,
)
    requires
        done == (MetadataExtractionResult { total: 0, processed: 0, failed: 0 }),
        files.len() <= usize::MAX,
    ensures
        counts(counted_over(done, files), files),
        succeeded(files) <= files.len(),
    decreases files.len(),
{
    if files.len() > 0 {
        lemma_run_counts_files(done, files.drop_last());
    }
}

// ── Events ──────────────────────────────────────────────────────────────────

/// The identifier that a text denotes, if it denotes one.
pub open spec fn identified(text: Seq<char>) -> Option<Uuid> {
    match identifier::parsed_uuid(text) {
        Some(value) => Some(Uuid { value }),
        None => None,
    }
}

/// The answer to the creation of an audio file: metadata is read from a new
/// content and otherwise taken over.
pub open spec fn created_answer(
    file_id: Option<Uuid>,
    blob_hash: Seq<char>,
    content_type: Seq<char>,
    is_new_blob: bool,
) -> Seq<FileActionView> {
    match file_id {
        Some(id) if is_audio(content_type) => if is_new_blob {
            seq![FileActionView::ExtractAudio { id, blob_hash }]
        } else {
            seq![FileActionView::CloneOrExtractAudio { id, blob_hash }]
        },
        _ => seq![],
    }
}

/// The answer to the copy of an audio file.
pub open spec fn copied_answer(
    file_id: Option<Uuid>,
    blob_hash: Seq<char>,
    content_type: Seq<char>,
    source_file_id: Option<Uuid>,
) -> Seq<FileActionView> {
    match (file_id, source_file_id) {
        (Some(id), Some(source)) if is_audio(content_type) => seq![
            FileActionView::CloneAudio { id, source_id: source, blob_hash },
        ],
        _ => seq![],
    }
}

/// The answer to the update of an audio file.
pub open spec fn updated_answer(
    file_id: Option<Uuid>,
    blob_hash: Seq<char>,
    content_type: Seq<char>,
) -> Seq<FileActionView> {
    match file_id {
        Some(id) if is_audio(content_type) => seq![
            FileActionView::ReplaceAudio { id, blob_hash },
        ],
        _ => seq![],
    }
}

/// What follows from the creation of a file with that identifier.
pub fn created_actions(
    file_id: Option<Uuid>,
    blob_hash: &str,
    content_type: &str,
    is_new_blob: bool,
) -> (actions: Vec<FileAction>)
    ensures
        file::actions_view(actions@) == created_answer(
            file_id,
            blob_hash@,
            content_type@,
            is_new_blob,
        ),
{
    let mut actions: Vec<FileAction> = Vec::new();
    if AudioMetadataService::is_audio_file(content_type) {
        if let Some(id) = file_id {
            if is_new_blob {
                actions.push(
                    FileAction::ExtractAudio { id, blob_hash: blob_hash.to_owned() },
                );
            } else {
                actions.push(
                    FileAction::CloneOrExtractAudio { id, blob_hash: blob_hash.to_owned() },
                );
            }
        }
    }
    proof {
        assert(file::actions_view(actions@) =~= created_answer(
            file_id,
            blob_hash@,
            content_type@,
            is_new_blob,
        ));
    }
    actions
}

/// What follows from the copy of a file, with the identifiers of the copy and
/// of the file that was copied.
pub fn copied_actions(
    file_id: Option<Uuid>,
    blob_hash: &str,
    content_type: &str,
    source_file_id: Option<Uuid>,
) -> (actions: Vec<FileAction>)
    ensures
        file::actions_view(actions@) == copied_answer(
            file_id,
            blob_hash@,
            content_type@,
            source_file_id,
        ),
{
    let mut actions: Vec<FileAction> = Vec::new();
    if AudioMetadataService::is_audio_file(content_type) {
        if let Some(id) = file_id {
            if let Some(source_id) = source_file_id {
                actions.push(
                    FileAction::CloneAudio {
                        id,
                        source_id,
                        blob_hash: blob_hash.to_owned(),
                    },
                );
            }
        }
    }
    proof {
        assert(file::actions_view(actions@) =~= copied_answer(
            file_id,
            blob_hash@,
            content_type@,
            source_file_id,
        ));
    }
    actions
}

/// What follows from the update of a file with that identifier.
pub fn updated_actions(file_id: Option<Uuid>, blob_hash: &str, content_type: &str) -> (actions: Vec<
    FileAction,
>)
    ensures
        file::actions_view(actions@) == updated_answer(file_id, blob_hash@, content_type@),
{
    let mut actions: Vec<FileAction> = Vec::new();
    if AudioMetadataService::is_audio_file(content_type) {
        if let Some(id) = file_id {
            actions.push(FileAction::ReplaceAudio { id, blob_hash: blob_hash.to_owned() });
        }
    }
    proof {
        assert(file::actions_view(actions@) =~= updated_answer(
            file_id,
            blob_hash@,
            content_type@,
        ));
    }
    actions
}

impl FileLifecycleHook for AudioMetadataService {
    open spec fn answer_created(
        &self,
        file_id: Seq<char>,
        blob_hash: Seq<char>,
        content_type: Seq<char>,
        is_new_blob: bool,
    ) -> Seq<FileActionView> {
        created_answer(identified(file_id), blob_hash, content_type, is_new_blob)
    }

    open spec fn answer_copied(
        &self,
        file_id: Seq<char>,
        blob_hash: Seq<char>,
        content_type: Seq<char>,
        source_file_id: Seq<char>,
    ) -> Seq<FileActionView> {
        copied_answer(
            identified(file_id),
            blob_hash,
            content_type,
            identified(source_file_id),
        )
    }

    open spec fn answer_updated(
        &self,
        file_id: Seq<char>,
        blob_hash: Seq<char>,
        content_type: Seq<char>,
    ) -> Seq<FileActionView> {
        updated_answer(identified(file_id), blob_hash, content_type)
    }

    /// The database deletes the metadata of a file together with the file.
    open spec fn answer_deleted(&self, file_id: Seq<char>) -> Seq<FileActionView> {
        seq![]
    }

    fn on_file_created(
        &self,
        file_id: &str,
        blob_hash: &str,
        content_type: &str,
        is_new_blob: bool,
    ) -> (actions: Vec<FileAction>) {
        created_actions(Uuid::parse(file_id), blob_hash, content_type, is_new_blob)
    }

    fn on_file_copied(
        &self,
        file_id: &str,
        blob_hash: &str,
        content_type: &str,
        source_file_id: &str,
    ) -> (actions: Vec<FileAction>) {
        copied_actions(
            Uuid::parse(file_id),
            blob_hash,
            content_type,
            Uuid::parse(source_file_id),
        )
    }

    fn on_file_updated(&self, file_id: &str, blob_hash: &str, content_type: &str) -> (actions: Vec<
        FileAction,
    >) {
        updated_actions(Uuid::parse(file_id), blob_hash, content_type)
    }

    fn on_file_deleted(&self, _file_id: &str) -> (actions: Vec<FileAction>) {
        let actions: Vec<FileAction> = Vec::new();
        proof {
            assert(file::actions_view(actions@) =~= seq![]);
        }
        actions
    }
}

} // verus!

//! Thumbnails.

use vstd::prelude::*;
use vstd::string::*;

use crate::errors::{DomainError, ErrorKind};
use crate::laws::shared;
use crate::lifecycle::blob;
use crate::lifecycle::blob::{BlobAction, BlobLifecycleHook};
use crate::lifecycle::file;
use crate::lifecycle::file::{FileAction, FileLifecycleHook};
use crate::text;
use crate::thumbnail::generation::{
    AcquirePermit, AfterCheck, CheckFile, GenerationFailure, GuardBlob, LoadFile, RenderAll,
    SaveAll, SaveOne,
};
use crate::thumbnail::hooks::{ReadContent, Refresh, ThumbnailRefreshHook};
use crate::thumbnail::render;
use crate::thumbnail::render::{
    accept_external, bounds_for, check_dimensions, collect_rendered, decode_for_thumbnail,
    filter_for, finish_external, needs_no_scaling, render_thumbnail, request_scale, scale_for,
    ExternalThumbnail, ScaleFilter, ScaleRequest,
};
use crate::thumbnail::service;
use crate::thumbnail::service::{
    begin_decoding, cache_weight, max_concurrent_decodes, original_read, serve, timed_out,
    AfterCache, AfterExternal, BlobLookup, CachedLookup, DiskReply, ExternalLookup, GetThumbnail,
    NewEntry, RenderThumbnail, StoreExternal, TaskReply, ThumbnailService, TimeSpan, WriteExternal,
};
use crate::thumbnail::size::{PortThumbnailSize, ThumbnailError, ThumbnailSize, ThumbnailStats};
use crate::thumbnail::store;
use crate::thumbnail::store::{Step, ThumbnailCacheKey, ThumbnailPath};

verus! {

// ── Sizes and places ────────────────────────────────────────────────────────

/// The longest side of a thumbnail.
pub open spec fn longest_side(s: ThumbnailSize) -> u32 {
    match s {
        ThumbnailSize::Icon => 150,
        ThumbnailSize::Preview => 400,
        ThumbnailSize::Large => 800,
    }
}

/// The directory of the thumbnails of a size.
pub open spec fn directory(s: ThumbnailSize) -> Seq<char> {
    match s {
        ThumbnailSize::Icon => "icon"@,
        ThumbnailSize::Preview => "preview"@,
        ThumbnailSize::Large => "large"@,
    }
}

/// The place of the thumbnail of a content.
pub open spec fn is_place_of_content(
    path: ThumbnailPath,
    hash: Seq<char>,
    s: ThumbnailSize,
) -> bool {
    path.dir@ == directory(s) && path.name@ == hash + ".jpg"@
}

/// The place of a thumbnail that was made elsewhere for a file.
pub open spec fn is_place_of_file(path: ThumbnailPath, file_id: Seq<char>, s: ThumbnailSize) -> bool {
    path.dir@ == directory(s) && path.name@ == "ext-"@ + file_id + ".jpg"@
}

/// The place in the cache of the thumbnail of a file.
pub open spec fn is_key_of(key: ThumbnailCacheKey, file_id: Seq<char>, s: ThumbnailSize) -> bool {
    key.file_id@ == file_id && key.size == s
}

/// Each size has its longest side and its directory, and all of them are listed
/// once, the smallest first.
pub proof fn law_sizes(
    s: ThumbnailSize,
    max: u32,
    dir: &'static str,
    sizes: [ThumbnailSize; 3],
)
    requires
        call_ensures(ThumbnailSize::max_dimension, (&s,), max),
        call_ensures(ThumbnailSize::dir_name, (&s,), dir),
        call_ensures(ThumbnailSize::all, (), sizes),
    ensures
        max == longest_side(s),
        dir@ == directory(s),
        sizes@[0] == ThumbnailSize::Icon,
        sizes@[1] == ThumbnailSize::Preview,
        sizes@[2] == ThumbnailSize::Large,
{
}

/// The sizes as callers name them have their namesakes.
pub proof fn law_sizes_keep_their_names(size: PortThumbnailSize, own: ThumbnailSize)
    requires
        call_ensures(<ThumbnailSize as From<PortThumbnailSize>>::from, (size,), own),
    ensures
        own is Icon <==> size is Icon,
        own is Preview <==> size is Preview,
        own is Large <==> size is Large,
{
}

/// Thumbnails of a content lie under its hash, those made elsewhere under the
/// file, each in the directory of their size; in the cache they stand under the
/// file and the size.
pub proof fn law_places(
    text: &str,
    s: ThumbnailSize,
    of_content: ThumbnailPath,
    of_file: ThumbnailPath,
    key: ThumbnailCacheKey,
)
    requires
        call_ensures(ThumbnailPath::of_blob, (text, s), of_content),
        call_ensures(ThumbnailPath::of_external, (text, s), of_file),
        call_ensures(ThumbnailCacheKey::new, (text, s), key),
    ensures
        is_place_of_content(of_content, text@, s),
        is_place_of_file(of_file, text@, s),
        is_key_of(key, text@, s),
{
}

/// Contents share a place only where they are the same content in the same
/// size, and so do the files of thumbnails made elsewhere.
pub proof fn law_places_are_apart(
    a: &str,
    size_a: ThumbnailSize,
    content_a: ThumbnailPath,
    file_a: ThumbnailPath,
    b: &str,
    size_b: ThumbnailSize,
    content_b: ThumbnailPath,
    file_b: ThumbnailPath,
)
    requires
        call_ensures(ThumbnailPath::of_blob, (a, size_a), content_a),
        call_ensures(ThumbnailPath::of_blob, (b, size_b), content_b),
        call_ensures(ThumbnailPath::of_external, (a, size_a), file_a),
        call_ensures(ThumbnailPath::of_external, (b, size_b), file_b),
    ensures
        content_a.dir@ == content_b.dir@ && content_a.name@ == content_b.name@ <==> a@ == b@
            && size_a == size_b,
        file_a.dir@ == file_b.dir@ && file_a.name@ == file_b.name@ <==> a@ == b@ && size_a
            == size_b,
{
    store::law_blob_files_are_distinct(a@, size_a, b@, size_b);
    store::law_external_files_are_distinct(a@, size_a, b@, size_b);
    assert(content_a@ == (content_a.dir@, content_a.name@));
    assert(content_b@ == (content_b.dir@, content_b.name@));
    assert(file_a@ == (file_a.dir@, file_a.name@));
    assert(file_b@ == (file_b.dir@, file_b.name@));
}

/// An error says of what kind it is and hands on its reason; as an error of the
/// domain it says the same.
pub proof fn law_messages_of_errors(error: ThumbnailError, message: String, reported: DomainError)
    requires
        call_ensures(ThumbnailError::message, (&error,), message),
        call_ensures(ThumbnailError::to_domain_error, (&error,), reported),
    ensures
        match error {
            ThumbnailError::IoError(m) => message@ == "IO error: "@ + m@,
            ThumbnailError::ImageError(m) => message@ == "Image processing error: "@ + m@,
            ThumbnailError::TaskError(m) => message@ == "Task error: "@ + m@,
            ThumbnailError::UnsupportedFormat => message@ == "Unsupported image format"@,
        },
        shared::reports(reported, ErrorKind::InternalError, "Thumbnail"@, message@),
{
}

// ── Events ──────────────────────────────────────────────────────────────────

/// The types of the images that have thumbnails.
pub open spec fn has_thumbnails(content_type: Seq<char>) -> bool {
    content_type == "image/jpeg"@ || content_type == "image/jpg"@ || content_type == "image/png"@
        || content_type == "image/gif"@ || content_type == "image/webp"@
}

/// Just these types have thumbnails: `image/jpeg`, `image/jpg`, `image/png`,
/// `image/gif` and `image/webp`.
pub proof fn law_types_with_thumbnails(content_type: &str, yes: bool)
    requires
        call_ensures(ThumbnailService::is_supported_image, (content_type,), yes),
    ensures
        yes <==> content_type@ == "image/jpeg"@ || content_type@ == "image/jpg"@ || content_type@
            == "image/png"@ || content_type@ == "image/gif"@ || content_type@ == "image/webp"@,
{
}

/// A new image with a new content has its thumbnails made, once, of that
/// content; for any other type, and for a content that was there, nothing is
/// done.
pub proof fn law_new_images_get_thumbnails(
    hook: ThumbnailRefreshHook,
    file_id: &str,
    blob_hash: &str,
    content_type: &str,
    is_new_blob: bool,
    actions: Vec<FileAction>,
)
    requires
        call_ensures(
            <ThumbnailRefreshHook as FileLifecycleHook>::on_file_created,
            (&hook, file_id, blob_hash, content_type, is_new_blob),
            actions,
        ),
    ensures
        is_new_blob && (content_type@ == "image/jpeg"@ || content_type@ == "image/jpg"@
            || content_type@ == "image/png"@ || content_type@ == "image/gif"@ || content_type@
            == "image/webp"@) ==> {
            &&& actions@.len() == 1
            &&& actions@[0] matches FileAction::GenerateThumbnails { file_id: f, blob_hash: h }
            &&& f@ == file_id@
            &&& h@ == blob_hash@
        },
        !is_new_blob ==> actions@.len() == 0,
        content_type@ != "image/jpeg"@ && content_type@ != "image/jpg"@ && content_type@
            != "image/png"@ && content_type@ != "image/gif"@ && content_type@ != "image/webp"@
            ==> actions@.len() == 0,
{
    lemma_views(actions@);
}

/// An image whose content was replaced has its thumbnails made anew, once, of
/// the new content; for any other type nothing is done.
pub proof fn law_updated_images_get_new_thumbnails(
    hook: ThumbnailRefreshHook,
    file_id: &str,
    blob_hash: &str,
    content_type: &str,
    actions: Vec<FileAction>,
)
    requires
        call_ensures(
            <ThumbnailRefreshHook as FileLifecycleHook>::on_file_updated,
            (&hook, file_id, blob_hash, content_type),
            actions,
        ),
    ensures
        has_thumbnails(content_type@) ==> {
            &&& actions@.len() == 1
            &&& actions@[0] matches FileAction::RefreshThumbnails { file_id: f, blob_hash: h }
            &&& f@ == file_id@
            &&& h@ == blob_hash@
        },
        !has_thumbnails(content_type@) ==> actions@.len() == 0,
{
    lemma_views(actions@);
}

/// A copy needs nothing of its own. With a file its thumbnails go, once,
/// whatever its type was.
pub proof fn law_copies_and_deletions(
    hook: ThumbnailRefreshHook,
    file_id: &str,
    blob_hash: &str,
    content_type: &str,
    source_file_id: &str,
    copied: Vec<FileAction>,
    deleted: Vec<FileAction>,
)
    requires
        call_ensures(
            <ThumbnailRefreshHook as FileLifecycleHook>::on_file_copied,
            (&hook, file_id, blob_hash, content_type, source_file_id),
            copied,
        ),
        call_ensures(
            <ThumbnailRefreshHook as FileLifecycleHook>::on_file_deleted,
            (&hook, file_id),
            deleted,
        ),
    ensures
        copied@.len() == 0,
        deleted@.len() == 1,
        deleted@[0] matches FileAction::DropThumbnails { file_id: f } && f@ == file_id@,
{
    lemma_views(copied@);
    lemma_views(deleted@);
}

proof fn lemma_views(actions: Seq<FileAction>)
    ensures
        file::actions_view(actions).len() == actions.len(),
        forall|i: int|
            0 <= i < actions.len() ==> file::actions_view(actions)[i] == (#[trigger] actions[i])@,
        actions.len() > 0 ==> file::actions_view(actions)[0] == actions[0]@,
{
}

/// A content that is new needs nothing; with a content its thumbnails go, once.
pub proof fn law_contents_and_their_thumbnails(
    service: ThumbnailService,
    blob_hash: &str,
    content_type: Option<&str>,
    created: Vec<BlobAction>,
    deleted: Vec<BlobAction>,
)
    requires
        call_ensures(
            <ThumbnailService as BlobLifecycleHook>::on_blob_created,
            (&service, blob_hash, content_type),
            created,
        ),
        call_ensures(
            <ThumbnailService as BlobLifecycleHook>::on_blob_deleted,
            (&service, blob_hash),
            deleted,
        ),
    ensures
        created@.len() == 0,
        deleted@.len() == 1,
        deleted@[0] matches BlobAction::DropBlobThumbnails { blob_hash: h } && h@ == blob_hash@,
{
    assert(blob::actions_view(created@).len() == created@.len());
    assert(blob::actions_view(deleted@).len() == deleted@.len());
    assert(blob::actions_view(deleted@)[0] == deleted@[0]@);
}

/// A refresh first deletes what is kept for the file, and then makes
/// thumbnails of the content for the file, if it can be read. A generation
/// without a refresh makes the same.
pub proof fn law_refreshes(
    thumbnail: ThumbnailService,
    hook: ThumbnailRefreshHook,
    file_id: String,
    blob_hash: String,
    refresh: Refresh,
    spawned: ReadContent,
    readable: bool,
    next: Option<GuardBlob>,
)
    requires
        call_ensures(ThumbnailRefreshHook::new, (thumbnail,), hook),
        call_ensures(
            ThumbnailRefreshHook::refresh_thumbnails,
            (&hook, file_id, blob_hash),
            refresh,
        ),
        call_ensures(
            ThumbnailRefreshHook::spawn_thumbnail_generation,
            (file_id, blob_hash),
            spawned,
        ),
        call_ensures(ReadContent::read, (spawned, readable), next),
    ensures
        hook.thumbnail == thumbnail,
        deletes_file(refresh.first@, file_id@),
        refresh.rest.work.file_id@ == file_id@,
        refresh.rest.work.blob_hash@ == blob_hash@,
        spawned.work.file_id@ == file_id@,
        spawned.work.blob_hash@ == blob_hash@,
        next is Some <==> readable,
        next matches Some(guard) ==> guard.work == spawned.work,
{
    lemma_deletes_file(refresh.first@, file_id@);
}

// ── Deletion ────────────────────────────────────────────────────────────────

/// The steps drop the entries of the file and remove what was made elsewhere
/// for it, in all sizes, and touch nothing else.
pub open spec fn deletes_file(steps: Seq<Step>, file_id: Seq<char>) -> bool {
    &&& forall|i: int|
        0 <= i < steps.len() ==> match #[trigger] steps[i] {
            Step::Forget(key) => key.file_id@ == file_id,
            Step::Remove(path) => exists|s: ThumbnailSize| is_place_of_file(path, file_id, s),
        }
    &&& forall|s: ThumbnailSize| #[trigger] forgets(steps, file_id, s)
    &&& forall|s: ThumbnailSize| #[trigger] removes_of_file(steps, file_id, s)
}

/// One of the steps drops that entry.
pub open spec fn forgets(steps: Seq<Step>, file_id: Seq<char>, s: ThumbnailSize) -> bool {
    exists|i: int|
        0 <= i < steps.len() && (#[trigger] steps[i] matches Step::Forget(key) && is_key_of(
            key,
            file_id,
            s,
        ))
}

/// One of the steps removes that file.
pub open spec fn removes_of_file(steps: Seq<Step>, file_id: Seq<char>, s: ThumbnailSize) -> bool {
    exists|i: int|
        0 <= i < steps.len() && (#[trigger] steps[i] matches Step::Remove(path)
            && is_place_of_file(path, file_id, s))
}

/// One of the steps removes that file.
pub open spec fn removes_of_content(steps: Seq<Step>, hash: Seq<char>, s: ThumbnailSize) -> bool {
    exists|i: int|
        0 <= i < steps.len() && (#[trigger] steps[i] matches Step::Remove(path)
            && is_place_of_content(path, hash, s))
}

proof fn lemma_steps(steps: Seq<Step>)
    ensures
        store::steps_view(steps).len() == steps.len(),
        forall|i: int|
            0 <= i < steps.len() ==> store::steps_view(steps)[i] == (#[trigger] steps[i])@,
{
}

proof fn lemma_deletes_file(steps: Seq<Step>, file_id: Seq<char>)
    requires
        store::steps_view(steps) == store::file_deletion(file_id),
    ensures
        deletes_file(steps, file_id),
{
    lemma_steps(steps);
    assert(steps.len() == 6);
    assert(is_place_of_file(steps[1]->Remove_0, file_id, ThumbnailSize::Icon));
    assert(is_place_of_file(steps[3]->Remove_0, file_id, ThumbnailSize::Preview));
    assert(is_place_of_file(steps[5]->Remove_0, file_id, ThumbnailSize::Large));
    assert(is_key_of(steps[0]->Forget_0, file_id, ThumbnailSize::Icon));
    assert(is_key_of(steps[2]->Forget_0, file_id, ThumbnailSize::Preview));
    assert(is_key_of(steps[4]->Forget_0, file_id, ThumbnailSize::Large));
    assert(steps[0] is Forget && steps[2] is Forget && steps[4] is Forget);
    assert(steps[1] is Remove && steps[3] is Remove && steps[5] is Remove);
    assert forall|s: ThumbnailSize| #[trigger] forgets(steps, file_id, s) by {
        match s {
            ThumbnailSize::Icon => assert(is_key_of(steps[0]->Forget_0, file_id, s)),
            ThumbnailSize::Preview => assert(is_key_of(steps[2]->Forget_0, file_id, s)),
            ThumbnailSize::Large => assert(is_key_of(steps[4]->Forget_0, file_id, s)),
        }
    }
    assert forall|s: ThumbnailSize| #[trigger] removes_of_file(steps, file_id, s) by {
        match s {
            ThumbnailSize::Icon => assert(is_place_of_file(steps[1]->Remove_0, file_id, s)),
            ThumbnailSize::Preview => assert(is_place_of_file(steps[3]->Remove_0, file_id, s)),
            ThumbnailSize::Large => assert(is_place_of_file(steps[5]->Remove_0, file_id, s)),
        }
    }
}

/// Deleting the thumbnails of a file drops its entries and removes what was made
/// elsewhere for it, in all sizes, and touches nothing else, the thumbnails of
/// its content in particular.
pub proof fn law_deleting_the_thumbnails_of_a_file(
    service: ThumbnailService,
    file_id: &str,
    steps: Vec<Step>,
)
    requires
        call_ensures(ThumbnailService::delete_thumbnails, (&service, file_id), steps),
    ensures
        deletes_file(steps@, file_id@),
{
    lemma_deletes_file(steps@, file_id@);
}

/// Deleting the thumbnails of a content removes its files in all sizes and
/// touches nothing else.
pub proof fn law_deleting_the_thumbnails_of_a_content(
    service: ThumbnailService,
    blob_hash: &str,
    steps: Vec<Step>,
)
    requires
        call_ensures(ThumbnailService::delete_blob_thumbnails, (&service, blob_hash), steps),
    ensures
        forall|i: int|
            0 <= i < steps@.len() ==> (#[trigger] steps@[i] matches Step::Remove(path) && exists|
                s: ThumbnailSize,
            | is_place_of_content(path, blob_hash@, s)),
        forall|s: ThumbnailSize| #[trigger] removes_of_content(steps@, blob_hash@, s),
{
    let all = steps@;
    let hash = blob_hash@;
    lemma_steps(all);
    assert(all.len() == 3);
    assert(all[0] is Remove && all[1] is Remove && all[2] is Remove);
    assert(is_place_of_content(all[0]->Remove_0, hash, ThumbnailSize::Icon));
    assert(is_place_of_content(all[1]->Remove_0, hash, ThumbnailSize::Preview));
    assert(is_place_of_content(all[2]->Remove_0, hash, ThumbnailSize::Large));
    assert forall|s: ThumbnailSize| #[trigger] removes_of_content(all, hash, s) by {
        match s {
            ThumbnailSize::Icon => assert(is_place_of_content(all[0]->Remove_0, hash, s)),
            ThumbnailSize::Preview => assert(is_place_of_content(all[1]->Remove_0, hash, s)),
            ThumbnailSize::Large => assert(is_place_of_content(all[2]->Remove_0, hash, s)),
        }
    }
}

// ── The service ─────────────────────────────────────────────────────────────

/// A service keeps to the limit and the time that it was given, however many
/// entries were asked for; without a time, to thirty seconds.
pub proof fn law_services_keep_their_limits(
    entries: usize,
    bytes: usize,
    time: Option<TimeSpan>,
    service: ThumbnailService,
    limit: u64,
    timeout: TimeSpan,
)
    requires
        time is Some ==> time->0.nanos < 1_000_000_000,
        call_ensures(ThumbnailService::new, (entries, bytes, time), service),
        call_ensures(ThumbnailService::max_cache_bytes, (&service,), limit),
        call_ensures(ThumbnailService::generation_timeout, (&service,), timeout),
    ensures
        limit == bytes,
        match time {
            Some(span) => timeout.secs == span.secs && timeout.nanos == span.nanos,
            None => timeout.secs == 30 && timeout.nanos == 0,
        },
{
}

/// There is a directory for each size, and no other, below that of all
/// thumbnails.
pub proof fn law_directories(service: ThumbnailService, dirs: Vec<&'static str>)
    requires
        call_ensures(ThumbnailService::initialize, (&service,), dirs),
    ensures
        service::THUMBNAILS_DIR@ == ".thumbnails"@,
        dirs@.len() == 3,
        dirs@[0]@ == "icon"@,
        dirs@[1]@ == "preview"@,
        dirs@[2]@ == "large"@,
{
}

/// Half as many images are decoded at a time as there are processors, of which
/// four are taken for granted, but never fewer than two.
pub proof fn law_images_decoded_at_a_time(cpus: Option<usize>, permits: usize)
    requires
        call_ensures(max_concurrent_decodes, (cpus,), permits),
    ensures
        permits >= 2,
        cpus is None ==> permits == 2,
        cpus matches Some(n) ==> (n >= 4 ==> 2 * permits <= n < 2 * permits + 2),
        cpus matches Some(n) ==> (n < 4 ==> permits == 2),
{
}

/// The weight of an entry is its length, up to the greatest weight.
pub proof fn law_weights(len: usize, weight: u32)
    requires
        call_ensures(cache_weight, (len,), weight),
    ensures
        len <= 0xffff_ffff ==> weight == len,
        len > 0xffff_ffff ==> weight == 0xffff_ffff,
{
}

/// The statistics say how many entries there are, how much they weigh, and what
/// the limit is.
pub proof fn law_statistics(
    service: ThumbnailService,
    limit: u64,
    entries: u64,
    weight: u64,
    stats: ThumbnailStats,
)
    requires
        call_ensures(ThumbnailService::max_cache_bytes, (&service,), limit),
        call_ensures(ThumbnailService::get_stats, (&service, entries, weight), stats),
    ensures
        entries <= usize::MAX ==> stats.cached_thumbnails == entries,
        weight <= usize::MAX ==> stats.cache_size_bytes == weight,
        limit <= usize::MAX ==> stats.max_cache_bytes == limit,
{
}

/// A rendering that came to its end has its own outcome. One that took too long
/// is reported with the time that it had, and one that broke off with the
/// reason.
pub proof fn law_ends_of_renderings(
    service: ThumbnailService,
    timeout: TimeSpan,
    reply: TaskReply,
    outcome: Result<Vec<u8>, ThumbnailError>,
)
    requires
        call_ensures(ThumbnailService::generation_timeout, (&service,), timeout),
        call_ensures(ThumbnailService::finish_generation, (&service, reply), outcome),
    ensures
        reply matches TaskReply::Done(result) ==> outcome == result,
        reply matches TaskReply::Failed(reason) ==> (outcome matches Err(
            ThumbnailError::TaskError(m),
        ) && m@ == reason@),
        reply is TimedOut ==> (outcome matches Err(ThumbnailError::TaskError(m)) && m@
            == "Thumbnail generation timed out after "@ + service::span_debug_text(
            timeout.secs,
            timeout.nanos,
        )),
{
}

/// How the other failures of a rendering are reported.
pub proof fn law_failures_of_renderings(
    span: &str,
    late: ThumbnailError,
    acquired: bool,
    begun: Result<(), ThumbnailError>,
    reply: Result<Vec<u8>, String>,
    original: Result<Vec<u8>, ThumbnailError>,
)
    requires
        call_ensures(timed_out, (span,), late),
        call_ensures(begin_decoding, (acquired,), begun),
        call_ensures(original_read, (reply,), original),
    ensures
        late matches ThumbnailError::TaskError(m) && m@ == "Thumbnail generation timed out after "@
            + span@,
        begun is Ok <==> acquired,
        begun matches Err(e) ==> (e matches ThumbnailError::TaskError(m) && m@
            == "Decode semaphore closed"@),
        original is Ok <==> reply is Ok,
        reply matches Ok(data) ==> original->Ok_0 == data,
        reply matches Err(reason) ==> (original matches Err(ThumbnailError::ImageError(m)) && m@
            == reason@),
{
}

// ── On demand ───────────────────────────────────────────────────────────────

/// A thumbnail is asked for under the file and its size, and in the file of its
/// content, however the image is read. A file that is there is the entry; where
/// there is none, what was rendered is the entry, and is saved in that file. A
/// failed rendering saves nothing and leaves an empty entry.
pub proof fn law_thumbnails_on_demand(
    service: ThumbnailService,
    file_id: &str,
    blob_hash: &str,
    s: ThumbnailSize,
    request: GetThumbnail,
    from_bytes: GetThumbnail,
    data: Option<Vec<u8>>,
    reply: DiskReply,
    result: Result<Vec<u8>, ThumbnailError>,
    entry: NewEntry,
)
    requires
        call_ensures(ThumbnailService::get_thumbnail, (&service, file_id, blob_hash, s), request),
        call_ensures(
            ThumbnailService::get_thumbnail_from_bytes,
            (&service, file_id, blob_hash, s),
            from_bytes,
        ),
        call_ensures(GetThumbnail::on_disk, (request, data), reply),
        reply matches DiskReply::Render(render) ==> call_ensures(
            RenderThumbnail::rendered,
            (render, result),
            entry,
        ),
    ensures
        is_key_of(request.key, file_id@, s),
        is_place_of_content(request.path, blob_hash@, s),
        is_key_of(from_bytes.key, file_id@, s),
        is_place_of_content(from_bytes.path, blob_hash@, s),
        data matches Some(bytes) ==> reply == DiskReply::Loaded(bytes),
        data is None ==> {
            &&& reply is Render
            &&& match result {
                Ok(bytes) => {
                    &&& entry.bytes == bytes
                    &&& entry.save is Some
                    &&& is_place_of_content(entry.save->0, blob_hash@, s)
                },
                Err(_) => entry.bytes@.len() == 0 && entry.save is None,
            }
        },
{
}

/// An entry is served exactly where it is not empty; an empty one is an error,
/// and just that entry is dropped.
pub proof fn law_empty_entries_are_not_served(
    key: ThumbnailCacheKey,
    len: usize,
    outcome: Result<(), (ThumbnailError, Step)>,
)
    requires
        call_ensures(serve, (key, len), outcome),
    ensures
        outcome is Ok <==> len > 0,
        outcome matches Err((error, step)) ==> {
            &&& error matches ThumbnailError::ImageError(m)
            &&& m@ == "Thumbnail generation failed"@
            &&& step matches Step::Forget(dropped)
            &&& dropped == key
        },
{
}

// ── What is kept already ────────────────────────────────────────────────────

/// A thumbnail that is kept is looked for in the cache, then, where the content
/// is known, among those made elsewhere for the file, and then among those of
/// the content. The first that is there is served, an empty entry counting as
/// none; what was read from a file is put into the cache for the file.
pub proof fn law_lookups(
    service: ThumbnailService,
    file_id: &str,
    blob_hash: Option<&str>,
    s: ThumbnailSize,
    lookup: CachedLookup,
    cached: Option<usize>,
    after_cache: AfterCache,
    external: Option<Vec<u8>>,
    after_external: AfterExternal,
    blob: Option<Vec<u8>>,
    found: Option<(ThumbnailCacheKey, Vec<u8>)>,
)
    requires
        call_ensures(
            ThumbnailService::get_cached_thumbnail,
            (&service, file_id, blob_hash, s),
            lookup,
        ),
        call_ensures(CachedLookup::in_cache, (lookup, cached), after_cache),
        after_cache matches AfterCache::Read(next) ==> call_ensures(
            ExternalLookup::on_disk,
            (next, external),
            after_external,
        ),
        after_cache is Read ==> (after_external matches AfterExternal::Read(next) ==> call_ensures(
            BlobLookup::on_disk,
            (next, blob),
            found,
        )),
    ensures
        is_key_of(lookup.key, file_id@, s),
        after_cache is Serve <==> cached is Some && cached->0 > 0,
        after_cache is Nothing <==> (cached is None || cached->0 == 0) && blob_hash is None,
        after_cache matches AfterCache::Read(in_files) ==> {
            &&& is_place_of_file(in_files.external, file_id@, s)
            &&& external matches Some(bytes) ==> {
                &&& after_external matches AfterExternal::Serve(key, served)
                &&& is_key_of(key, file_id@, s)
                &&& served == bytes
            }
            &&& external is None ==> {
                &&& after_external matches AfterExternal::Read(in_blob)
                &&& is_place_of_content(in_blob.blob, blob_hash->0@, s)
                &&& found is Some <==> blob is Some
                &&& found matches Some((key, served)) ==> is_key_of(key, file_id@, s)
                    && Some(served) == blob
            }
        },
{
}

// ── Made elsewhere ──────────────────────────────────────────────────────────

/// What was taken in is written to the file for thumbnails of that file that
/// were made elsewhere, and once it was written it is the entry for that file.
/// Each failure is reported for what it is, and nothing is written behind it.
pub proof fn law_thumbnails_made_elsewhere(
    service: ThumbnailService,
    file_id: &str,
    s: ThumbnailSize,
    request: StoreExternal,
    reply: Result<Result<Vec<u8>, ThumbnailError>, String>,
    next: Result<WriteExternal, ThumbnailError>,
    written: Result<(), String>,
    outcome: Result<(ThumbnailCacheKey, Vec<u8>), ThumbnailError>,
)
    requires
        call_ensures(
            ThumbnailService::store_external_thumbnail,
            (&service, file_id, s),
            request,
        ),
        call_ensures(StoreExternal::prepared, (request, reply), next),
        next matches Ok(write) ==> call_ensures(WriteExternal::written, (write, written), outcome),
    ensures
        is_key_of(request.key, file_id@, s),
        is_place_of_file(request.path, file_id@, s),
        next is Ok <==> (reply matches Ok(result) && result is Ok),
        reply matches Err(reason) ==> (next matches Err(ThumbnailError::TaskError(m)) && m@
            == reason@),
        reply matches Ok(Err(e)) ==> next->Err_0 == e,
        reply matches Ok(Ok(bytes)) ==> {
            &&& is_key_of(next->Ok_0.key, file_id@, s)
            &&& is_place_of_file(next->Ok_0.path, file_id@, s)
            &&& next->Ok_0.bytes == bytes
            &&& outcome is Ok <==> written is Ok
            &&& outcome matches Ok((key, kept)) ==> is_key_of(key, file_id@, s) && kept == bytes
            &&& written matches Err(reason) ==> (outcome matches Err(ThumbnailError::IoError(m))
                && m@ == reason@)
        },
{
}

// ── All sizes ───────────────────────────────────────────────────────────────

/// A generation for a content that is gone ends at once; any other begins with
/// the smallest size, for the file and the content that it was asked for.
pub proof fn law_generations_begin(
    service: ThumbnailService,
    file_id: String,
    blob_hash: String,
    from_file: CheckFile,
    from_bytes: GuardBlob,
    blob_exists: bool,
    checked: Option<CheckFile>,
)
    requires
        call_ensures(
            ThumbnailService::generate_all_sizes_background,
            (&service, file_id, blob_hash),
            from_file,
        ),
        call_ensures(
            ThumbnailService::generate_all_sizes_background_from_bytes,
            (&service, file_id, blob_hash),
            from_bytes,
        ),
        call_ensures(GuardBlob::checked, (from_bytes, blob_exists), checked),
    ensures
        from_file.work.file_id@ == file_id@,
        from_file.work.blob_hash@ == blob_hash@,
        from_file.size is Icon,
        checked is Some <==> blob_exists,
        checked matches Some(first) ==> {
            &&& first.work.file_id@ == file_id@
            &&& first.work.blob_hash@ == blob_hash@
            &&& first.size is Icon
        },
{
}

/// One size after the other is looked for in the file of the content. The first
/// that is missing leads to rendering; where none is, they are loaded, again
/// from the smallest on.
pub proof fn law_checks(
    check: CheckFile,
    path: ThumbnailPath,
    file_exists: bool,
    next: AfterCheck,
)
    requires
        call_ensures(CheckFile::path, (&check,), path),
        call_ensures(CheckFile::checked, (check, file_exists), next),
    ensures
        is_place_of_content(path, check.work.blob_hash@, check.size),
        !file_exists ==> (next matches AfterCheck::Acquire(wait) && wait.work == check.work),
        file_exists && check.size is Icon ==> (next matches AfterCheck::Check(more) && more.work
            == check.work && more.size is Preview),
        file_exists && check.size is Preview ==> (next matches AfterCheck::Check(more)
            && more.work == check.work && more.size is Large),
        file_exists && check.size is Large ==> (next matches AfterCheck::Load(load) && load.work
            == check.work && load.size is Icon),
{
}

/// Each size is loaded from the file of the content into the entry of the file;
/// a file that cannot be read is passed over. The largest is the last.
pub proof fn law_loads(
    load: LoadFile,
    path: ThumbnailPath,
    data: Option<Vec<u8>>,
    next: (Option<(ThumbnailCacheKey, Vec<u8>)>, Option<LoadFile>),
)
    requires
        call_ensures(LoadFile::path, (&load,), path),
        call_ensures(LoadFile::loaded, (load, data), next),
    ensures
        is_place_of_content(path, load.work.blob_hash@, load.size),
        next.0 is Some <==> data is Some,
        next.0 matches Some((key, bytes)) ==> is_key_of(key, load.work.file_id@, load.size)
            && bytes@ == data->0@,
        next.1 is None <==> load.size is Large,
        next.1 matches Some(more) ==> {
            &&& more.work == load.work
            &&& load.size is Icon ==> more.size is Preview
            &&& load.size is Preview ==> more.size is Large
        },
{
}

/// With a permit, and only with one, the thumbnails are rendered, and all that
/// were rendered are saved; a failed rendering saves none, and it is told from
/// one that broke off.
pub proof fn law_renderings(
    wait: AcquirePermit,
    granted: bool,
    render: Option<RenderAll>,
    all: RenderAll,
    reply: Result<Result<Vec<(ThumbnailSize, Vec<u8>)>, ThumbnailError>, String>,
    next: Result<SaveAll, GenerationFailure>,
)
    requires
        call_ensures(AcquirePermit::acquired, (wait, granted), render),
        call_ensures(RenderAll::rendered, (all, reply), next),
    ensures
        render is Some <==> granted,
        render matches Some(r) ==> r.work == wait.work,
        next is Ok <==> (reply matches Ok(result) && result is Ok),
        reply matches Ok(Ok(thumbnails)) ==> next->Ok_0.work == all.work
            && next->Ok_0.thumbnails == thumbnails,
        reply matches Ok(Err(e)) ==> next->Err_0 == GenerationFailure::Failed(e),
        reply matches Err(reason) ==> next->Err_0 == GenerationFailure::Panicked(reason),
{
}

/// Each thumbnail is saved once, in the file of the content in its size, and
/// once it was written, and only then, it is the entry of the file.
pub proof fn law_saves(
    all: SaveAll,
    saves: Vec<SaveOne>,
    save: SaveOne,
    success: bool,
    keep: Option<(ThumbnailCacheKey, Vec<u8>)>,
)
    requires
        call_ensures(SaveAll::saves, (all,), saves),
        call_ensures(SaveOne::written, (save, success), keep),
    ensures
        saves@.len() == all.thumbnails@.len(),
        forall|i: int|
            0 <= i < saves@.len() ==> {
                &&& is_key_of((#[trigger] saves@[i]).key, all.work.file_id@, all.thumbnails@[i].0)
                &&& is_place_of_content(
                    saves@[i].path,
                    all.work.blob_hash@,
                    all.thumbnails@[i].0,
                )
                &&& saves@[i].bytes == all.thumbnails@[i].1
            },
        keep is Some <==> success,
        keep matches Some((key, bytes)) ==> key == save.key && bytes == save.bytes,
{
}

// ── Rendering ───────────────────────────────────────────────────────────────

/// The message for an image of that width and height that has too many pixels.
pub open spec fn too_large(width: u32, height: u32) -> Seq<char> {
    "Image too large for thumbnail: "@ + text::decimal(width as nat) + "×"@ + text::decimal(
        height as nat,
    ) + " ("@ + text::decimal((width * height / 1_000_000) as nat) + " MP, max "@ + text::decimal(
        50_000_000,
    ) + ")"@
}

/// An image is decoded exactly where its dimensions can be read and make no
/// more than fifty million pixels. The message for a larger one says how large
/// it is.
pub proof fn law_large_images_are_refused(
    probed: Result<(u32, u32), String>,
    outcome: Result<(), ThumbnailError>,
)
    requires
        call_ensures(check_dimensions, (probed,), outcome),
    ensures
        outcome is Ok <==> (probed matches Ok((width, height)) && width * height <= 50_000_000),
        probed matches Err(reason) ==> (outcome matches Err(ThumbnailError::ImageError(m)) && m@
            == reason@),
        probed matches Ok((width, height)) ==> (outcome is Err ==> (outcome matches Err(
            ThumbnailError::ImageError(m),
        ) && m@ == too_large(width, height))),
{
}

/// What is decoded is what the `image` crate makes of the data, and only of data
/// whose dimensions are no reason to refuse it.
pub proof fn law_decoded_images(
    data: Vec<u8>,
    outcome: Result<image::DynamicImage, ThumbnailError>,
)
    requires
        call_ensures(decode_for_thumbnail, (&data,), outcome),
    ensures
        outcome is Ok <==> {
            &&& render::probed_dimensions(data@) matches Ok((width, height))
            &&& width * height <= 50_000_000
            &&& render::loaded_content(data@) is Ok
        },
        outcome matches Ok(img) ==> Ok::<_, Seq<char>>(render::image_content(img))
            == render::loaded_content(data@),
        outcome matches Err(e) ==> e is ImageError,
        render::probed_dimensions(data@) matches Err(reason) ==> (outcome matches Err(
            ThumbnailError::ImageError(m),
        ) && m@ == reason),
        render::probed_dimensions(data@) matches Ok((width, height)) ==> (outcome matches Err(
            ThumbnailError::ImageError(m),
        ) ==> (if width * height > 50_000_000 {
            m@ == too_large(width, height)
        } else {
            render::loaded_content(data@) == Err::<Seq<u8>, _>(m@)
        })),
{
}

/// The longer side of an image becomes the longest side of the size, the other
/// is computed from the two sides; neither is mistaken for the other.
pub proof fn law_scaling(
    width: u32,
    height: u32,
    s: ThumbnailSize,
    scaled: u32,
    request: ScaleRequest,
    bounds: (u32, u32),
)
    requires
        call_ensures(scale_for, (width, height, s), request),
        call_ensures(bounds_for, (width, height, s, scaled), bounds),
    ensures
        request.max == longest_side(s),
        request.long >= request.short,
        request.long + request.short == width + height,
        request.long == width || request.long == height,
        width > height ==> bounds.0 == longest_side(s) && bounds.1 == scaled,
        width <= height ==> bounds.1 == longest_side(s) && bounds.0 == scaled,
{
}

/// For an image the sides are those of the image. Icons are scaled with the
/// faster filter, the other sizes with the finer one.
pub proof fn law_scaling_of_images(
    img: image::DynamicImage,
    s: ThumbnailSize,
    request: ScaleRequest,
    filter: ScaleFilter,
)
    requires
        call_ensures(request_scale, (&img, s), request),
        call_ensures(filter_for, (s,), filter),
    ensures
        ({
            let width = render::content_width(render::image_content(img));
            let height = render::content_height(render::image_content(img));
            &&& request.max == longest_side(s)
            &&& request.long >= request.short
            &&& request.long + request.short == width + height
            &&& request.long == width || request.long == height
        }),
        filter is Triangle <==> s is Icon,
        filter is CatmullRom <==> s is Preview || s is Large,
{
}

/// The image that is scaled with the longer side as long as the size allows.
pub open spec fn smaller(
    content: Seq<u8>,
    s: ThumbnailSize,
    scaled: u32,
    triangle: bool,
) -> Seq<u8> {
    if render::content_width(content) > render::content_height(content) {
        render::resized_content(content, longest_side(s), scaled, triangle)
    } else {
        render::resized_content(content, scaled, longest_side(s), triangle)
    }
}

/// The outcome is the JPEG of that content in a quality of eighty, or the
/// failure of the encoder.
pub open spec fn is_jpeg_of(outcome: Result<Vec<u8>, ThumbnailError>, content: Seq<u8>) -> bool {
    match render::jpeg_of(content, 80) {
        Ok(bytes) => outcome is Ok && outcome->Ok_0@ == bytes,
        Err(reason) => outcome matches Err(ThumbnailError::ImageError(m)) && m@ == reason,
    }
}

/// The data is a JPEG, and neither of its sides is longer than the size allows.
pub open spec fn is_small_jpeg(data: Seq<u8>, s: ThumbnailSize) -> bool {
    &&& data.len() >= 2
    &&& data[0] == 0xFF
    &&& data[1] == 0xD8
    &&& render::probed_dimensions(data) matches Ok((width, height))
    &&& width <= longest_side(s)
    &&& height <= longest_side(s)
}

/// A thumbnail is the JPEG of the scaled image, and neither of its sides is
/// longer than its size allows, whatever the other side was computed to be.
pub proof fn law_rendered_thumbnails(
    img: image::DynamicImage,
    s: ThumbnailSize,
    scaled: u32,
    outcome: Result<Vec<u8>, ThumbnailError>,
    finished: Result<Vec<u8>, ThumbnailError>,
)
    requires
        call_ensures(render_thumbnail, (&img, s, scaled), outcome),
        call_ensures(finish_external, (&img, s, scaled), finished),
    ensures
        is_jpeg_of(outcome, smaller(render::image_content(img), s, scaled, s is Icon)),
        outcome matches Ok(bytes) ==> is_small_jpeg(bytes@, s),
        is_jpeg_of(finished, smaller(render::image_content(img), s, scaled, false)),
        finished matches Ok(bytes) ==> is_small_jpeg(bytes@, s),
{
}

/// All thumbnails are there, in their order, exactly where none of the
/// renderings failed; else the first failure is reported.
pub proof fn law_collected_thumbnails(
    rendered: Vec<(ThumbnailSize, Result<Vec<u8>, ThumbnailError>)>,
    outcome: Result<Vec<(ThumbnailSize, Vec<u8>)>, ThumbnailError>,
)
    requires
        call_ensures(collect_rendered, (rendered,), outcome),
    ensures
        outcome is Ok <==> forall|i: int|
            0 <= i < rendered@.len() ==> (#[trigger] rendered@[i]).1 is Ok,
        outcome matches Ok(thumbnails) ==> {
            &&& thumbnails@.len() == rendered@.len()
            &&& forall|i: int|
                0 <= i < rendered@.len() ==> (#[trigger] thumbnails@[i]).0 == rendered@[i].0
                    && thumbnails@[i].1 == rendered@[i].1->Ok_0
        },
        outcome matches Err(e) ==> exists|i: int|
            {
                &&& 0 <= i < rendered@.len()
                &&& (#[trigger] rendered@[i]).1 is Err
                &&& rendered@[i].1->Err_0 == e
                &&& forall|j: int| 0 <= j < i ==> (#[trigger] rendered@[j]).1 is Ok
            },
{
    if outcome is Ok {
        let thumbnails = outcome->Ok_0;
        assert forall|i: int| 0 <= i < rendered@.len() implies (#[trigger] rendered@[i]).1 is Ok by {
            assert(thumbnails@[i] == thumbnails@[i]);
        }
    }
}

/// Data needs no scaling exactly where it begins like a JPEG and its sides are
/// known and short enough.
pub proof fn law_what_needs_no_scaling(
    data: Vec<u8>,
    probed: Result<(u32, u32), String>,
    s: ThumbnailSize,
    yes: bool,
)
    requires
        call_ensures(needs_no_scaling, (&data, &probed, s), yes),
    ensures
        yes <==> {
            &&& data@.len() >= 2
            &&& data@[0] == 0xFF
            &&& data@[1] == 0xD8
            &&& probed matches Ok((width, height))
            &&& width <= longest_side(s)
            &&& height <= longest_side(s)
        },
{
}

/// A JPEG that is small enough is taken in as it is. Of other data the image is
/// decoded: one that is small enough is encoded anew, and a larger one is left
/// to be scaled. What is no image is refused.
pub proof fn law_thumbnails_are_taken_in(
    data: Vec<u8>,
    s: ThumbnailSize,
    outcome: Result<ExternalThumbnail, ThumbnailError>,
)
    requires
        call_ensures(accept_external, (data, s), outcome),
    ensures
        is_small_jpeg(data@, s) ==> (outcome matches Ok(ExternalThumbnail::Ready(stored))
            && stored == data),
        outcome matches Ok(ExternalThumbnail::Ready(stored)) ==> is_small_jpeg(stored@, s),
        !is_small_jpeg(data@, s) ==> match render::loaded_content(data@) {
            Err(reason) => outcome matches Err(ThumbnailError::ImageError(m)) && m@
                == "Invalid image data: "@ + reason,
            Ok(content) => {
                let small = render::content_width(content) <= longest_side(s)
                    && render::content_height(content) <= longest_side(s);
                &&& !small ==> (outcome matches Ok(ExternalThumbnail::TooLarge(img))
                    && render::image_content(img) == content)
                &&& small ==> match render::jpeg_of(content, 80) {
                    Ok(bytes) => outcome matches Ok(ExternalThumbnail::Ready(stored)) && stored@
                        == bytes,
                    Err(reason) => outcome matches Err(ThumbnailError::ImageError(m)) && m@
                        == reason,
                }
            },
        },
{
}

} // verus!

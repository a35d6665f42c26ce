//! Serving thumbnails: finding one that is kept, rendering one on demand and
//! taking in those that were made elsewhere.
//!
//! Reading and writing files, the cache and the rendering tasks lie outside.
//! Each type below stands for one request to them; the method that takes the
//! reply says what comes next.

use vstd::prelude::*;
use vstd::string::*;

use super::render;
use super::size::{ThumbnailError, ThumbnailSize, ThumbnailStats};
use super::store;
use super::store::{Kept, Step, ThumbnailCacheKey, ThumbnailPath};
use crate::text::same_text;

verus! {

/// The directory of the thumbnails below the root of the storage.
pub const THUMBNAILS_DIR: &'static str = ".thumbnails";

/// A span of time: whole seconds and the nanoseconds beyond them.
#[derive(Clone, Copy, PartialEq, Eq, Structural, Debug)]
pub struct TimeSpan {
    pub secs: u64,
    pub nanos: u32,
}

impl TimeSpan {
    /// The nanoseconds do not make a whole second.
    pub open spec fn wf(self) -> bool {
        self.nanos < 1_000_000_000
    }
}

/// How `std` writes a span of time for debugging, as in `30s` or `1.5ms`.
pub uninterp spec fn span_debug_text(secs: u64, nanos: u32) -> Seq<char>;

/// Calls `Duration::new` of `std` and formats the result with `{:?}`.
#[verifier::external_body]
fn debug_duration(secs: u64, nanos: u32) -> (text: String)
    requires
        nanos < 1_000_000_000,
    ensures
        text@ == span_debug_text(secs, nanos),
{
    format!("{:?}", std::time::Duration::new(secs, nanos))
}

/// What the thumbnail service is configured with.
#[derive(Clone, Copy, Debug)]
pub struct ThumbnailService {
    max_cache_bytes: u64,
    generation_timeout: TimeSpan,
}

/// The service makes thumbnails of images of this type.
pub open spec fn is_supported(mime_type: Seq<char>) -> bool {
    ||| mime_type == "image/jpeg"@
    ||| mime_type == "image/jpg"@
    ||| mime_type == "image/png"@
    ||| mime_type == "image/gif"@
    ||| mime_type == "image/webp"@
}

/// How many images are decoded at a time, given the number of processors
/// where it is known: half of them, and at least two.
pub fn max_concurrent_decodes(cpus: Option<usize>) -> (permits: usize)
    ensures
        permits == ({
            let n = if cpus is Some { cpus->0 } else { 4 };
            if n / 2 < 2 { 2 } else { n / 2 }
        }),
{
    let n: usize = match cpus {
        Some(n) => n,
        None => 4,
    };
    if n / 2 < 2 {
        2
    } else {
        n / 2
    }
}

/// The weight of a thumbnail in the cache: its length in bytes, as far as the
/// weight can express it.
pub fn cache_weight(len: usize) -> (weight: u32)
    ensures
        weight == (if len < u32::MAX { len as int } else { u32::MAX as int }),
{
    if len < u32::MAX as usize {
        len as u32
    } else {
        u32::MAX
    }
}

impl ThumbnailService {
    #[verifier::type_invariant]
    spec fn wf(self) -> bool {
        self.generation_timeout.wf()
    }

    /// The limit on the bytes in the cache.
    pub closed spec fn byte_limit(self) -> u64 {
        self.max_cache_bytes
    }

    /// How long one rendering may take.
    pub closed spec fn timeout(self) -> TimeSpan {
        self.generation_timeout
    }

    /// Configures the service. The number of cache entries is not limited:
    /// the cache is bounded by its bytes alone. The default for the timeout
    /// is thirty seconds.
    pub fn new(
        max_cache_entries: usize,
        max_cache_bytes: usize,
        generation_timeout: Option<TimeSpan>,
    ) -> (service: ThumbnailService)
        requires
            generation_timeout is Some ==> generation_timeout->0.wf(),
        ensures
            service.byte_limit() == max_cache_bytes,
            service.timeout() == (match generation_timeout {
                Some(span) => span,
                None => (TimeSpan { secs: 30, nanos: 0 }),
            }),
    {
        let _ = max_cache_entries;
        ThumbnailService {
            max_cache_bytes: max_cache_bytes as u64,
            generation_timeout: match generation_timeout {
                Some(span) => span,
                None => TimeSpan { secs: 30, nanos: 0 },
            },
        }
    }

    /// The limit on the bytes in the cache.
    pub fn max_cache_bytes(&self) -> (limit: u64)
        ensures
            limit == self.byte_limit(),
    {
        self.max_cache_bytes
    }

    /// How long one rendering may take.
    pub fn generation_timeout(&self) -> (span: TimeSpan)
        ensures
            span == self.timeout(),
            span.wf(),
    {
        proof {
            use_type_invariant(self);
        }
        self.generation_timeout
    }

    /// The directories to create below that of the thumbnails.
    pub fn initialize(&self) -> (dirs: Vec<&'static str>)
        ensures
            dirs@.len() == 3,
            dirs@[0]@ == "icon"@,
            dirs@[1]@ == "preview"@,
            dirs@[2]@ == "large"@,
    {
        let mut dirs: Vec<&'static str> = Vec::new();
        dirs.push(ThumbnailSize::Icon.dir_name());
        dirs.push(ThumbnailSize::Preview.dir_name());
        dirs.push(ThumbnailSize::Large.dir_name());
        dirs
    }

    /// Whether files of this type can have thumbnails.
    pub fn is_supported_image(mime_type: &str) -> (yes: bool)
        ensures
            yes == is_supported(mime_type@),
    {
        same_text(mime_type, "image/jpeg") || same_text(mime_type, "image/jpg") || same_text(
            mime_type,
            "image/png",
        ) || same_text(mime_type, "image/gif") || same_text(mime_type, "image/webp")
    }

    /// Asks for a thumbnail of an image file, which is rendered if need be.
    pub fn get_thumbnail(&self, file_id: &str, blob_hash: &str, size: ThumbnailSize) -> (request:
        GetThumbnail)
        ensures
            request.key@ == (file_id@, size),
            request.path@ == store::blob_file(blob_hash@, size),
    {
        GetThumbnail {
            key: ThumbnailCacheKey::new(file_id, size),
            path: ThumbnailPath::of_blob(blob_hash, size),
        }
    }

    /// Asks for a thumbnail from the bytes of the image. Where it is kept
    /// does not depend on how the image is read.
    pub fn get_thumbnail_from_bytes(
        &self,
        file_id: &str,
        blob_hash: &str,
        size: ThumbnailSize,
    ) -> (request: GetThumbnail)
        ensures
            request.key@ == (file_id@, size),
            request.path@ == store::blob_file(blob_hash@, size),
    {
        self.get_thumbnail(file_id, blob_hash, size)
    }

    /// Asks for a thumbnail that is already kept. None is rendered. Without
    /// the hash of the content only the cache is asked.
    pub fn get_cached_thumbnail(
        &self,
        file_id: &str,
        blob_hash: Option<&str>,
        size: ThumbnailSize,
    ) -> (lookup: CachedLookup)
        ensures
            lookup.asks(
                file_id@,
                match blob_hash {
                    Some(hash) => Some(hash@),
                    None => None,
                },
                size,
            ),
    {
        CachedLookup {
            key: ThumbnailCacheKey::new(file_id, size),
            external: ThumbnailPath::of_external(file_id, size),
            blob: match blob_hash {
                Some(hash) => Some(ThumbnailPath::of_blob(hash, size)),
                None => None,
            },
        }
    }

    /// Stores a thumbnail that was made elsewhere. The image itself is taken
    /// in by [`render::accept_external`].
    pub fn store_external_thumbnail(&self, file_id: &str, size: ThumbnailSize) -> (request:
        StoreExternal)
        ensures
            request.key@ == (file_id@, size),
            request.path@ == store::external_file(file_id@, size),
    {
        StoreExternal {
            key: ThumbnailCacheKey::new(file_id, size),
            path: ThumbnailPath::of_external(file_id, size),
        }
    }

    /// The changes that delete the thumbnails of a file. Those of its content
    /// stay, as other files may share them.
    pub fn delete_thumbnails(&self, file_id: &str) -> (steps: Vec<Step>)
        ensures
            store::steps_view(steps@) == store::file_deletion(file_id@),
    {
        let mut steps: Vec<Step> = Vec::new();
        steps.push(Step::Forget(ThumbnailCacheKey::new(file_id, ThumbnailSize::Icon)));
        steps.push(Step::Remove(ThumbnailPath::of_external(file_id, ThumbnailSize::Icon)));
        steps.push(Step::Forget(ThumbnailCacheKey::new(file_id, ThumbnailSize::Preview)));
        steps.push(Step::Remove(ThumbnailPath::of_external(file_id, ThumbnailSize::Preview)));
        steps.push(Step::Forget(ThumbnailCacheKey::new(file_id, ThumbnailSize::Large)));
        steps.push(Step::Remove(ThumbnailPath::of_external(file_id, ThumbnailSize::Large)));
        proof {
            assert(store::steps_view(steps@) =~= store::file_deletion(file_id@));
        }
        steps
    }

    /// The changes that delete the thumbnails of some content.
    pub fn delete_blob_thumbnails(&self, blob_hash: &str) -> (steps: Vec<Step>)
        ensures
            store::steps_view(steps@) == store::blob_deletion(blob_hash@),
    {
        let mut steps: Vec<Step> = Vec::new();
        steps.push(Step::Remove(ThumbnailPath::of_blob(blob_hash, ThumbnailSize::Icon)));
        steps.push(Step::Remove(ThumbnailPath::of_blob(blob_hash, ThumbnailSize::Preview)));
        steps.push(Step::Remove(ThumbnailPath::of_blob(blob_hash, ThumbnailSize::Large)));
        proof {
            assert(store::steps_view(steps@) =~= store::blob_deletion(blob_hash@));
        }
        steps
    }

    /// The statistics, from the number of entries and the weight of the cache.
    pub fn get_stats(&self, entry_count: u64, weighted_size: u64) -> (stats: ThumbnailStats)
        ensures
            stats.cached_thumbnails == entry_count as usize,
            stats.cache_size_bytes == weighted_size as usize,
            stats.max_cache_bytes == self.byte_limit() as usize,
    {
        ThumbnailStats {
            cached_thumbnails: entry_count as usize,
            cache_size_bytes: weighted_size as usize,
            max_cache_bytes: self.max_cache_bytes as usize,
        }
    }

    /// The outcome of a rendering task.
    pub fn finish_generation(&self, reply: TaskReply) -> (outcome: Result<
        Vec<u8>,
        ThumbnailError,
    >)
        ensures
            match reply {
                TaskReply::TimedOut => is_task_error(
                    outcome,
                    "Thumbnail generation timed out after "@ + span_debug_text(
                        self.timeout().secs,
                        self.timeout().nanos,
                    ),
                ),
                TaskReply::Failed(e) => is_task_error(outcome, e@),
                TaskReply::Done(result) => outcome == result,
            },
    {
        match reply {
            TaskReply::TimedOut => {
                let span = self.generation_timeout();
                let text = debug_duration(span.secs, span.nanos);
                Err(timed_out(text.as_str()))
            },
            TaskReply::Failed(e) => Err(ThumbnailError::TaskError(e)),
            TaskReply::Done(result) => result,
        }
    }
}

/// The error of a rendering that took longer than `span` allows.
pub fn timed_out(span: &str) -> (error: ThumbnailError)
    ensures
        error matches ThumbnailError::TaskError(m) && m@
            == "Thumbnail generation timed out after "@ + span@,
{
    ThumbnailError::TaskError("Thumbnail generation timed out after ".to_owned().concat(span))
}

/// `outcome` is a task error with that message.
pub open spec fn is_task_error<T>(outcome: Result<T, ThumbnailError>, message: Seq<char>) -> bool {
    outcome matches Err(ThumbnailError::TaskError(m)) && m@ == message
}

/// How a rendering task ended.
pub enum TaskReply {
    /// It took longer than the timeout allows.
    TimedOut,
    /// It could not be brought to its end, for the reason given.
    Failed(String),
    /// It came to its end.
    Done(Result<Vec<u8>, ThumbnailError>),
}

/// Whether rendering may begin: decoding waits for a permit.
pub fn begin_decoding(acquired: bool) -> (outcome: Result<(), ThumbnailError>)
    ensures
        acquired ==> outcome == Ok::<(), ThumbnailError>(()),
        !acquired ==> is_task_error(outcome, "Decode semaphore closed"@),
{
    if acquired {
        Ok(())
    } else {
        Err(ThumbnailError::TaskError("Decode semaphore closed".to_owned()))
    }
}

/// The bytes of an image file, or the error that it cannot be read.
pub fn original_read(reply: Result<Vec<u8>, String>) -> (outcome: Result<Vec<u8>, ThumbnailError>)
    ensures
        match reply {
            Ok(data) => outcome == Ok::<Vec<u8>, ThumbnailError>(data),
            Err(e) => render::is_image_error(outcome, e@),
        },
{
    match reply {
        Ok(data) => Ok(data),
        Err(e) => Err(ThumbnailError::ImageError(e)),
    }
}

// ── On demand ───────────────────────────────────────────────────────────────

/// The cache has no entry for the key: read the file.
pub struct GetThumbnail {
    pub key: ThumbnailCacheKey,
    pub path: ThumbnailPath,
}

/// What follows after the file was asked for.
pub enum DiskReply {
    /// The entry for the cache.
    Loaded(Vec<u8>),
    /// There is no file: render the thumbnail.
    Render(RenderThumbnail),
}

/// Render the thumbnail that belongs in that file.
pub struct RenderThumbnail {
    pub path: ThumbnailPath,
}

/// The entry for the cache, and the file in which it is saved, if it is. A
/// failure to save it is no failure of the request.
pub struct NewEntry {
    pub bytes: Vec<u8>,
    pub save: Option<ThumbnailPath>,
}

impl GetThumbnail {
    pub fn on_disk(self, data: Option<Vec<u8>>) -> (reply: DiskReply)
        ensures
            match data {
                Some(bytes) => reply == DiskReply::Loaded(bytes),
                None => reply == DiskReply::Render(RenderThumbnail { path: self.path }),
            },
    {
        match data {
            Some(bytes) => DiskReply::Loaded(bytes),
            None => DiskReply::Render(RenderThumbnail { path: self.path }),
        }
    }
}

impl RenderThumbnail {
    /// A failed rendering leaves an empty entry, which is never served.
    pub fn rendered(self, result: Result<Vec<u8>, ThumbnailError>) -> (entry: NewEntry)
        ensures
            match result {
                Ok(bytes) => entry == (NewEntry { bytes, save: Some(self.path) }),
                Err(_) => entry.bytes@.len() == 0 && entry.save is None,
            },
    {
        match result {
            Ok(bytes) => NewEntry { bytes, save: Some(self.path) },
            Err(_) => NewEntry { bytes: Vec::new(), save: None },
        }
    }
}

/// Decides whether an entry of the cache is served, given its length. An
/// empty one stands for a failed rendering: it is an error, and it is dropped
/// so that the next request tries again.
pub fn serve(key: ThumbnailCacheKey, len: usize) -> (outcome: Result<(), (ThumbnailError, Step)>)
    ensures
        len > 0 ==> outcome == Ok::<(), (ThumbnailError, Step)>(()),
        len == 0 ==> (outcome matches Err((ThumbnailError::ImageError(m), step)) && m@
            == "Thumbnail generation failed"@ && step == Step::Forget(key)),
{
    if len == 0 {
        Err(
            (
                ThumbnailError::ImageError("Thumbnail generation failed".to_owned()),
                Step::Forget(key),
            ),
        )
    } else {
        Ok(())
    }
}

/// A request for a thumbnail that failed leaves no entry in the cache, so
/// that the next request for it does not fail for that reason alone. Nothing
/// else changes.
pub proof fn law_failed_requests_are_retried(kept: Kept, key: ThumbnailCacheKey)
    ensures
        ({
            let after = store::after_step(kept, Step::Forget(key)@);
            &&& !after.memory.contains_key(key@)
            &&& after.files == kept.files
            &&& forall|other: (Seq<char>, ThumbnailSize)|
                other != key@ ==> (#[trigger] after.memory.contains_key(other)
                    <==> kept.memory.contains_key(other))
        }),
{
}

/// What is kept after a rendered thumbnail was kept in the cache and saved.
pub open spec fn remembered(kept: Kept, request: GetThumbnail, bytes: Seq<u8>) -> Kept {
    Kept {
        memory: kept.memory.insert(request.key@, bytes),
        files: kept.files.insert(request.path@, bytes),
    }
}

/// A thumbnail that was rendered on demand and saved is found from then on,
/// whether or not the cache has dropped it meanwhile, unless one that was made
/// elsewhere takes its place.
pub proof fn law_rendered_thumbnail_is_found(
    kept: Kept,
    request: GetThumbnail,
    file_id: Seq<char>,
    blob_hash: Seq<char>,
    size: ThumbnailSize,
    bytes: Seq<u8>,
    later: Kept,
)
    requires
        request.key@ == (file_id, size),
        request.path@ == store::blob_file(blob_hash, size),
        bytes.len() > 0,
        later.files == remembered(kept, request, bytes).files,
        later.memory == remembered(kept, request, bytes).memory || (later.memory == remembered(
            kept,
            request,
            bytes,
        ).memory.remove(request.key@) && !kept.files.contains_key(
            store::external_file(file_id, size),
        )),
    ensures
        store::found(later, file_id, Some(blob_hash), size) == Some(bytes),
{
}

// ── What is kept already ────────────────────────────────────────────────────

/// Look in the cache.
pub struct CachedLookup {
    pub key: ThumbnailCacheKey,
    pub external: ThumbnailPath,
    pub blob: Option<ThumbnailPath>,
}

/// What follows after the cache was asked.
pub enum AfterCache {
    /// Serve the entry of the cache.
    Serve,
    Read(ExternalLookup),
    /// There is no thumbnail.
    Nothing,
}

/// Read the file of the thumbnail that was made elsewhere.
pub struct ExternalLookup {
    pub key: ThumbnailCacheKey,
    pub external: ThumbnailPath,
    pub blob: ThumbnailPath,
}

/// What follows after that file was asked for.
pub enum AfterExternal {
    /// Serve the bytes and keep them in the cache.
    Serve(ThumbnailCacheKey, Vec<u8>),
    Read(BlobLookup),
}

/// Read the file of the content's thumbnail.
pub struct BlobLookup {
    pub key: ThumbnailCacheKey,
    pub blob: ThumbnailPath,
}

impl CachedLookup {
    /// This lookup is for that file, content and size.
    pub open spec fn asks(
        self,
        file_id: Seq<char>,
        blob_hash: Option<Seq<char>>,
        size: ThumbnailSize,
    ) -> bool {
        &&& self.key@ == (file_id, size)
        &&& self.external@ == store::external_file(file_id, size)
        &&& match blob_hash {
            Some(hash) => self.blob matches Some(path) && path@ == store::blob_file(hash, size),
            None => self.blob is None,
        }
    }

    /// A non-empty entry is served; an empty one counts as none. Files are
    /// read only where the content is known.
    pub open spec fn after_cache(self, cached: Option<usize>) -> AfterCache {
        match cached {
            Some(len) if len > 0 => AfterCache::Serve,
            _ => match self.blob {
                Some(blob) => AfterCache::Read(
                    ExternalLookup { key: self.key, external: self.external, blob },
                ),
                None => AfterCache::Nothing,
            },
        }
    }

    /// Takes the length of the entry in the cache, if there is one.
    pub fn in_cache(self, cached: Option<usize>) -> (next: AfterCache)
        ensures
            next == self.after_cache(cached),
    {
        match cached {
            Some(len) if len > 0 => AfterCache::Serve,
            _ => match self.blob {
                Some(blob) => AfterCache::Read(
                    ExternalLookup { key: self.key, external: self.external, blob },
                ),
                None => AfterCache::Nothing,
            },
        }
    }
}

impl ExternalLookup {
    pub open spec fn after_read(self, data: Option<Vec<u8>>) -> AfterExternal {
        match data {
            Some(bytes) => AfterExternal::Serve(self.key, bytes),
            None => AfterExternal::Read(BlobLookup { key: self.key, blob: self.blob }),
        }
    }

    pub fn on_disk(self, data: Option<Vec<u8>>) -> (next: AfterExternal)
        ensures
            next == self.after_read(data),
    {
        match data {
            Some(bytes) => AfterExternal::Serve(self.key, bytes),
            None => AfterExternal::Read(BlobLookup { key: self.key, blob: self.blob }),
        }
    }
}

impl BlobLookup {
    pub open spec fn after_read(self, data: Option<Vec<u8>>) -> Option<
        (ThumbnailCacheKey, Vec<u8>),
    > {
        match data {
            Some(bytes) => Some((self.key, bytes)),
            None => None,
        }
    }

    /// What is served and kept in the cache, if there is anything.
    pub fn on_disk(self, data: Option<Vec<u8>>) -> (found: Option<(ThumbnailCacheKey, Vec<u8>)>)
        ensures
            found == self.after_read(data),
    {
        match data {
            Some(bytes) => Some((self.key, bytes)),
            None => None,
        }
    }
}

/// The reply is what the file holds, or nothing where there is no such file.
pub open spec fn reads(kept: Kept, path: ThumbnailPath, reply: Option<Vec<u8>>) -> bool {
    match reply {
        Some(bytes) => kept.files.contains_key(path@) && kept.files[path@] == bytes@,
        None => !kept.files.contains_key(path@),
    }
}

/// The reply is the length of the entry, or nothing where there is none.
pub open spec fn measures(kept: Kept, key: ThumbnailCacheKey, reply: Option<usize>) -> bool {
    match reply {
        Some(len) => kept.memory.contains_key(key@) && kept.memory[key@].len() == len,
        None => !kept.memory.contains_key(key@),
    }
}

/// What a lookup serves, given the replies to its requests.
pub open spec fn looked_up(
    kept: Kept,
    lookup: CachedLookup,
    cached: Option<usize>,
    external: Option<Vec<u8>>,
    blob: Option<Vec<u8>>,
) -> Option<Seq<u8>> {
    match lookup.after_cache(cached) {
        AfterCache::Serve => Some(kept.memory[lookup.key@]),
        AfterCache::Nothing => None,
        AfterCache::Read(in_files) => match in_files.after_read(external) {
            AfterExternal::Serve(_, bytes) => Some(bytes@),
            AfterExternal::Read(in_blob) => match in_blob.after_read(blob) {
                Some((_, bytes)) => Some(bytes@),
                None => None,
            },
        },
    }
}

/// A lookup serves exactly the thumbnail that is kept for the file: the one
/// in the cache, else, where the content's hash is known, the one made
/// elsewhere, else that of the content.
pub proof fn law_lookup_serves_what_is_kept(
    kept: Kept,
    lookup: CachedLookup,
    file_id: Seq<char>,
    blob_hash: Option<Seq<char>>,
    size: ThumbnailSize,
    cached: Option<usize>,
    external: Option<Vec<u8>>,
    blob: Option<Vec<u8>>,
)
    requires
        lookup.asks(file_id, blob_hash, size),
        measures(kept, lookup.key, cached),
        lookup.blob is Some ==> reads(kept, lookup.external, external) && reads(
            kept,
            lookup.blob->0,
            blob,
        ),
    ensures
        looked_up(kept, lookup, cached, external, blob) == store::found(
            kept,
            file_id,
            blob_hash,
            size,
        ),
{
}

// ── Made elsewhere ──────────────────────────────────────────────────────────

/// Take in the image, in a task of its own.
pub struct StoreExternal {
    pub key: ThumbnailCacheKey,
    pub path: ThumbnailPath,
}

/// Write the file.
pub struct WriteExternal {
    pub key: ThumbnailCacheKey,
    pub path: ThumbnailPath,
    pub bytes: Vec<u8>,
}

impl StoreExternal {
    /// `next` follows from what became of the task.
    pub open spec fn leads_to(
        self,
        reply: Result<Result<Vec<u8>, ThumbnailError>, String>,
        next: Result<WriteExternal, ThumbnailError>,
    ) -> bool {
        match reply {
            Err(e) => is_task_error(next, e@),
            Ok(Err(e)) => next == Err::<WriteExternal, ThumbnailError>(e),
            Ok(Ok(bytes)) => next == Ok::<_, ThumbnailError>(
                WriteExternal { key: self.key, path: self.path, bytes },
            ),
        }
    }

    /// Takes what became of the task; its error is the reason why it could
    /// not be brought to its end.
    pub fn prepared(self, reply: Result<Result<Vec<u8>, ThumbnailError>, String>) -> (next: Result<
        WriteExternal,
        ThumbnailError,
    >)
        ensures
            self.leads_to(reply, next),
    {
        match reply {
            Err(e) => Err(ThumbnailError::TaskError(e)),
            Ok(Err(e)) => Err(e),
            Ok(Ok(bytes)) => Ok(WriteExternal { key: self.key, path: self.path, bytes }),
        }
    }
}

impl WriteExternal {
    /// What is kept after the file was written and the cache was filled.
    pub open spec fn stored(self, kept: Kept) -> Kept {
        Kept {
            memory: kept.memory.insert(self.key@, self.bytes@),
            files: kept.files.insert(self.path@, self.bytes@),
        }
    }

    /// `outcome` follows from what became of the write.
    pub open spec fn leads_to(
        self,
        reply: Result<(), String>,
        outcome: Result<(ThumbnailCacheKey, Vec<u8>), ThumbnailError>,
    ) -> bool {
        match reply {
            Ok(()) => outcome == Ok::<_, ThumbnailError>((self.key, self.bytes)),
            Err(e) => outcome matches Err(ThumbnailError::IoError(m)) && m@ == e@,
        }
    }

    /// Takes what became of the write. The thumbnail that was written is kept
    /// in the cache and is the result.
    pub fn written(self, reply: Result<(), String>) -> (outcome: Result<
        (ThumbnailCacheKey, Vec<u8>),
        ThumbnailError,
    >)
        ensures
            self.leads_to(reply, outcome),
    {
        match reply {
            Ok(()) => Ok((self.key, self.bytes)),
            Err(e) => Err(ThumbnailError::IoError(e)),
        }
    }
}

/// A thumbnail that was stored is found: from the cache, and where the cache
/// has dropped it meanwhile by a lookup that knows the content's hash.
pub proof fn law_stored_thumbnail_is_found(
    kept: Kept,
    write: WriteExternal,
    file_id: Seq<char>,
    blob_hash: Option<Seq<char>>,
    size: ThumbnailSize,
    later: Kept,
)
    requires
        write.key@ == (file_id, size),
        write.path@ == store::external_file(file_id, size),
        later.files == write.stored(kept).files,
        (later.memory == write.stored(kept).memory && write.bytes@.len() > 0) || (later.memory
            == write.stored(kept).memory.remove(write.key@) && blob_hash is Some),
    ensures
        store::found(later, file_id, blob_hash, size) == Some(write.bytes@),
{
}

/// The task of storing a thumbnail ends with `result`: what was taken in is
/// ready as it is, or is scaled and encoded, or is refused.
pub open spec fn is_task_result(
    accepted: Result<render::ExternalThumbnail, ThumbnailError>,
    s: ThumbnailSize,
    scaled: u32,
    result: Result<Vec<u8>, ThumbnailError>,
) -> bool {
    match accepted {
        Err(e) => result == Err::<Vec<u8>, ThumbnailError>(e),
        Ok(render::ExternalThumbnail::Ready(bytes)) => result == Ok::<Vec<u8>, ThumbnailError>(
            bytes,
        ),
        Ok(render::ExternalThumbnail::TooLarge(img)) => render::is_finished(
            result,
            render::image_content(img),
            s,
            scaled,
        ),
    }
}

/// What is stored is a JPEG whose sides do not exceed the size's maximum. An
/// image that fits already keeps its dimensions. Data that is no image is
/// refused, and nothing is written.
pub proof fn law_stored_thumbnail_fits_its_size(
    request: StoreExternal,
    data: Vec<u8>,
    s: ThumbnailSize,
    scaled: u32,
    accepted: Result<render::ExternalThumbnail, ThumbnailError>,
    result: Result<Vec<u8>, ThumbnailError>,
    next: Result<WriteExternal, ThumbnailError>,
)
    requires
        render::is_accepted(accepted, data, s),
        is_task_result(accepted, s, scaled, result),
        request.leads_to(Ok(result), next),
    ensures
        next matches Ok(write) ==> {
            &&& render::is_fitting_jpeg(write.bytes@, s)
            &&& write.key == request.key
            &&& write.path == request.path
        },
        render::is_fitting_jpeg(data@, s) ==> (next matches Ok(write) && write.bytes == data),
        !render::is_fitting_jpeg(data@, s) ==> match render::loaded_content(data@) {
            Ok(content) => render::fits(content, s) ==> (next matches Ok(write)
                ==> render::probed_dimensions(write.bytes@) == Ok::<_, Seq<char>>(
                (render::content_width(content), render::content_height(content)),
            )),
            Err(e) => render::is_image_error(next, "Invalid image data: "@ + e),
        },
{
}

} // verus!

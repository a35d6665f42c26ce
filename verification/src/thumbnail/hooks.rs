//! What events in the life of files and contents mean for thumbnails.

use vstd::prelude::*;
use vstd::string::*;

use super::generation;
use super::generation::{Generation, GuardBlob, LoadFile};
use super::service;
use super::service::ThumbnailService;
use super::size::ThumbnailSize;
use super::store;
use super::store::{Kept, Step};
use crate::lifecycle::blob;
use crate::lifecycle::blob::{BlobAction, BlobActionView, BlobLifecycleHook};
use crate::lifecycle::file;
use crate::lifecycle::file::{FileAction, FileActionView, FileLifecycleHook};

verus! {

/// Keeps the thumbnails of files up to date.
pub struct ThumbnailRefreshHook {
    pub thumbnail: ThumbnailService,
}

/// Read the content of which the thumbnails of a file are made.
pub struct ReadContent {
    pub work: Generation,
}

/// The thumbnails of a file are made anew: first these changes, in their
/// order, then the rest.
pub struct Refresh {
    pub first: Vec<Step>,
    pub rest: ReadContent,
}

impl ThumbnailRefreshHook {
    pub fn new(thumbnail: ThumbnailService) -> (hook: ThumbnailRefreshHook)
        ensures
            hook.thumbnail == thumbnail,
    {
        ThumbnailRefreshHook { thumbnail }
    }

    /// Makes the thumbnails of a file.
    pub fn spawn_thumbnail_generation(file_id: String, blob_hash: String) -> (next: ReadContent)
        ensures
            next == (ReadContent { work: Generation { file_id, blob_hash } }),
    {
        ReadContent { work: Generation { file_id, blob_hash } }
    }

    /// Makes the thumbnails of a file anew: those that are kept for it are
    /// deleted before any is made.
    pub fn refresh_thumbnails(&self, file_id: String, blob_hash: String) -> (refresh: Refresh)
        ensures
            store::steps_view(refresh.first@) == store::file_deletion(file_id@),
            refresh.rest == (ReadContent { work: Generation { file_id, blob_hash } }),
    {
        let first = self.thumbnail.delete_thumbnails(file_id.as_str());
        Refresh { first, rest: ThumbnailRefreshHook::spawn_thumbnail_generation(file_id, blob_hash) }
    }
}

impl ReadContent {
    /// The content was read, or not. Without it no thumbnails are made.
    pub fn read(self, success: bool) -> (next: Option<GuardBlob>)
        ensures
            success ==> next == Some(GuardBlob { work: self.work }),
            !success ==> next is None,
    {
        if success {
            Some(GuardBlob { work: self.work })
        } else {
            None
        }
    }
}

/// Once a refresh has begun, no thumbnail of the old content is found for the
/// file any more, only those that the new content has. Where that has all of
/// them, the refresh puts just these into the cache for the file.
pub proof fn law_refresh_forgets_the_old_content(
    kept: Kept,
    work: Generation,
    refresh: Refresh,
    s: ThumbnailSize,
)
    requires
        store::steps_view(refresh.first@) == store::file_deletion(work.file_id@),
        work.blob_hash@ != "ext-"@ + work.file_id@,
    ensures
        ({
            let begun = store::after_steps(kept, store::steps_view(refresh.first@));
            let file = store::blob_file(work.blob_hash@, s);
            &&& store::found(begun, work.file_id@, Some(work.blob_hash@), s) == (
            if kept.files.contains_key(file) {
                Some(kept.files[file])
            } else {
                None
            })
            &&& generation::all_exist(kept, work.blob_hash@) ==> {
                let done = (LoadFile { work, size: ThumbnailSize::Icon }).all_loaded(begun);
                &&& done.memory.contains_key((work.file_id@, s))
                &&& done.memory[(work.file_id@, s)] == kept.files[file]
            }
        }),
{
    let id = work.file_id@;
    let hash = work.blob_hash@;
    let begun = store::after_steps(kept, store::file_deletion(id));
    store::law_deleted_thumbnails_are_not_found(kept, id, hash, s);
    if generation::all_exist(kept, hash) {
        store::law_deleting_a_file_drops_its_thumbnails_only(kept, id);
        assert forall|t: ThumbnailSize|
            begun.files.contains_key(#[trigger] store::blob_file(hash, t)) && begun.files[
                store::blob_file(hash, t)] == kept.files[store::blob_file(hash, t)] by {
            assert forall|u: ThumbnailSize| store::blob_file(hash, t) != #[trigger]
                store::external_file(id, u) by {
                store::law_blob_and_external_files_are_distinct(hash, t, id, u);
            }
            assert(kept.files.contains_key(store::blob_file(hash, t)));
        }
        generation::law_existing_thumbnails_fill_the_cache(begun, work);
    }
}

impl FileLifecycleHook for ThumbnailRefreshHook {
    /// Thumbnails are made of images whose content is new. Others share those
    /// of their content.
    open spec fn answer_created(
        &self,
        file_id: Seq<char>,
        blob_hash: Seq<char>,
        content_type: Seq<char>,
        is_new_blob: bool,
    ) -> Seq<FileActionView> {
        if is_new_blob && service::is_supported(content_type) {
            seq![FileActionView::GenerateThumbnails { file_id, blob_hash }]
        } else {
            seq![]
        }
    }

    /// A copy shares the thumbnails of its content.
    open spec fn answer_copied(
        &self,
        file_id: Seq<char>,
        blob_hash: Seq<char>,
        content_type: Seq<char>,
        source_file_id: Seq<char>,
    ) -> Seq<FileActionView> {
        seq![]
    }

    open spec fn answer_updated(
        &self,
        file_id: Seq<char>,
        blob_hash: Seq<char>,
        content_type: Seq<char>,
    ) -> Seq<FileActionView> {
        if service::is_supported(content_type) {
            seq![FileActionView::RefreshThumbnails { file_id, blob_hash }]
        } else {
            seq![]
        }
    }

    open spec fn answer_deleted(&self, file_id: Seq<char>) -> Seq<FileActionView> {
        seq![FileActionView::DropThumbnails { file_id }]
    }

    fn on_file_created(
        &self,
        file_id: &str,
        blob_hash: &str,
        content_type: &str,
        is_new_blob: bool,
    ) -> (actions: Vec<FileAction>) {
        let mut actions: Vec<FileAction> = Vec::new();
        if is_new_blob && ThumbnailService::is_supported_image(content_type) {
            actions.push(
                FileAction::GenerateThumbnails {
                    file_id: file_id.to_owned(),
                    blob_hash: blob_hash.to_owned(),
                },
            );
        }
        proof {
            assert(file::actions_view(actions@) =~= self.answer_created(
                file_id@,
                blob_hash@,
                content_type@,
                is_new_blob,
            ));
        }
        actions
    }

    fn on_file_copied(
        &self,
        _file_id: &str,
        _blob_hash: &str,
        _content_type: &str,
        _source_file_id: &str,
    ) -> (actions: Vec<FileAction>) {
        let actions: Vec<FileAction> = Vec::new();
        proof {
            assert(file::actions_view(actions@) =~= seq![]);
        }
        actions
    }

    fn on_file_updated(&self, file_id: &str, blob_hash: &str, content_type: &str) -> (actions: Vec<
        FileAction,
    >) {
        let mut actions: Vec<FileAction> = Vec::new();
        if ThumbnailService::is_supported_image(content_type) {
            actions.push(
                FileAction::RefreshThumbnails {
                    file_id: file_id.to_owned(),
                    blob_hash: blob_hash.to_owned(),
                },
            );
        }
        proof {
            assert(file::actions_view(actions@) =~= self.answer_updated(
                file_id@,
                blob_hash@,
                content_type@,
            ));
        }
        actions
    }

    fn on_file_deleted(&self, file_id: &str) -> (actions: Vec<FileAction>) {
        let mut actions: Vec<FileAction> = Vec::new();
        actions.push(FileAction::DropThumbnails { file_id: file_id.to_owned() });
        proof {
            assert(file::actions_view(actions@) =~= self.answer_deleted(file_id@));
        }
        actions
    }
}

impl BlobLifecycleHook for ThumbnailService {
    /// Thumbnails are made when a file is created, not when its content is.
    open spec fn answer_created(
        &self,
        blob_hash: Seq<char>,
        content_type: Option<Seq<char>>,
    ) -> Seq<BlobActionView> {
        seq![]
    }

    open spec fn answer_deleted(&self, blob_hash: Seq<char>) -> Seq<BlobActionView> {
        seq![BlobActionView::DropBlobThumbnails { blob_hash }]
    }

    fn on_blob_created(&self, _blob_hash: &str, _content_type: Option<&str>) -> (actions: Vec<
        BlobAction,
    >) {
        let actions: Vec<BlobAction> = Vec::new();
        proof {
            assert(blob::actions_view(actions@) =~= seq![]);
        }
        actions
    }

    fn on_blob_deleted(&self, blob_hash: &str) -> (actions: Vec<BlobAction>) {
        let mut actions: Vec<BlobAction> = Vec::new();
        actions.push(BlobAction::DropBlobThumbnails { blob_hash: blob_hash.to_owned() });
        proof {
            assert(blob::actions_view(actions@) =~= self.answer_deleted(blob_hash@));
        }
        actions
    }
}

} // verus!

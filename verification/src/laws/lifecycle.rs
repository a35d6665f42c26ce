//! Events in the life of files and of contents.

use std::sync::Arc;

use vstd::prelude::*;

use crate::lifecycle::blob;
use crate::lifecycle::blob::{BlobAction, BlobLifecycleHook, BlobLifecycleService};
use crate::lifecycle::file;
use crate::lifecycle::file::{FileAction, FileLifecycleHook, FileLifecycleService};

verus! {

/// The two are the same work on the same file.
pub open spec fn same_work(a: FileAction, b: FileAction) -> bool {
    match (a, b) {
        (
            FileAction::GenerateThumbnails { file_id: f, blob_hash: h },
            FileAction::GenerateThumbnails { file_id, blob_hash },
        ) => f@ == file_id@ && h@ == blob_hash@,
        (
            FileAction::RefreshThumbnails { file_id: f, blob_hash: h },
            FileAction::RefreshThumbnails { file_id, blob_hash },
        ) => f@ == file_id@ && h@ == blob_hash@,
        (
            FileAction::DropThumbnails { file_id: f },
            FileAction::DropThumbnails { file_id },
        ) => f@ == file_id@,
        (
            FileAction::ExtractAudio { id: i, blob_hash: h },
            FileAction::ExtractAudio { id, blob_hash },
        ) => i == id && h@ == blob_hash@,
        (
            FileAction::ReplaceAudio { id: i, blob_hash: h },
            FileAction::ReplaceAudio { id, blob_hash },
        ) => i == id && h@ == blob_hash@,
        (
            FileAction::CloneOrExtractAudio { id: i, blob_hash: h },
            FileAction::CloneOrExtractAudio { id, blob_hash },
        ) => i == id && h@ == blob_hash@,
        (
            FileAction::CloneAudio { id: i, source_id: s, blob_hash: h },
            FileAction::CloneAudio { id, source_id, blob_hash },
        ) => i == id && s == source_id && h@ == blob_hash@,
        _ => false,
    }
}

/// The work of `all` is that of `first` and then that of `then`.
pub open spec fn joins(all: Seq<FileAction>, first: Seq<FileAction>, then: Seq<FileAction>) -> bool {
    &&& all.len() == first.len() + then.len()
    &&& forall|i: int| 0 <= i < first.len() ==> same_work(#[trigger] all[i], first[i])
    &&& forall|i: int|
        first.len() <= i < all.len() ==> same_work(#[trigger] all[i], then[i - first.len()])
}

proof fn lemma_joins(all: Seq<FileAction>, first: Seq<FileAction>, then: Seq<FileAction>)
    requires
        file::actions_view(all) == file::actions_view(first) + file::actions_view(then),
    ensures
        joins(all, first, then),
{
    assert(file::actions_view(all).len() == all.len());
    assert(file::actions_view(first).len() == first.len());
    assert(file::actions_view(then).len() == then.len());
    assert forall|i: int| 0 <= i < first.len() implies same_work(#[trigger] all[i], first[i]) by {
        assert(file::actions_view(all)[i] == file::actions_view(first)[i]);
    }
    assert forall|i: int| first.len() <= i < all.len() implies same_work(
        #[trigger] all[i],
        then[i - first.len()],
    ) by {
        assert(file::actions_view(all)[i] == file::actions_view(then)[i - first.len()]);
    }
}

/// A new service has no handlers; a handler that is registered stands behind
/// those that were there.
pub proof fn law_handlers_of_files_are_registered_in_order(
    created: FileLifecycleService,
    default: FileLifecycleService,
    registration: (FileLifecycleService, Arc<dyn FileLifecycleHook>),
    after: FileLifecycleService,
)
    requires
        call_ensures(FileLifecycleService::new, (), created),
        call_ensures(<FileLifecycleService as Default>::default, (), default),
        call_ensures(FileLifecycleService::with_hook, registration, after),
    ensures
        created.hooks@.len() == 0,
        default.hooks@.len() == 0,
        after.hooks@.len() == registration.0.hooks@.len() + 1,
        forall|i: int|
            0 <= i < registration.0.hooks@.len() ==> #[trigger] after.hooks@[i]
                == registration.0.hooks@[i],
        after.hooks@.last() == registration.1,
{
    assert forall|i: int| 0 <= i < registration.0.hooks@.len() implies #[trigger] after.hooks@[i]
        == registration.0.hooks@[i] by {
        assert(after.hooks@.drop_last()[i] == registration.0.hooks@[i]);
    }
}

/// A service answers the creation of a file with what its handlers answer, one
/// after the other: with a handler more, with what it answered without it and
/// then with what that handler answers, here `then`; and with nothing where it
/// has none.
pub proof fn law_creations_reach_every_handler(
    registration: (FileLifecycleService, Arc<dyn FileLifecycleHook>),
    after: FileLifecycleService,
    file_id: &str,
    blob_hash: &str,
    content_type: &str,
    is_new_blob: bool,
    first: Vec<FileAction>,
    then: Vec<FileAction>,
    all: Vec<FileAction>,
)
    requires
        call_ensures(FileLifecycleService::with_hook, registration, after),
        call_ensures(
            <FileLifecycleService as FileLifecycleHook>::on_file_created,
            (&registration.0, file_id, blob_hash, content_type, is_new_blob),
            first,
        ),
        file::actions_view(then@) == registration.1.answer_created(
            file_id@,
            blob_hash@,
            content_type@,
            is_new_blob,
        ),
        call_ensures(
            <FileLifecycleService as FileLifecycleHook>::on_file_created,
            (&after, file_id, blob_hash, content_type, is_new_blob),
            all,
        ),
    ensures
        joins(all@, first@, then@),
        registration.0.hooks@.len() == 0 ==> first@.len() == 0,
{
    assert(file::actions_view(first@).len() == first@.len());
    lemma_joins(all@, first@, then@);
}

/// The copying of a file is answered in the same way.
pub proof fn law_copies_reach_every_handler(
    registration: (FileLifecycleService, Arc<dyn FileLifecycleHook>),
    after: FileLifecycleService,
    file_id: &str,
    blob_hash: &str,
    content_type: &str,
    source_file_id: &str,
    first: Vec<FileAction>,
    then: Vec<FileAction>,
    all: Vec<FileAction>,
)
    requires
        call_ensures(FileLifecycleService::with_hook, registration, after),
        call_ensures(
            <FileLifecycleService as FileLifecycleHook>::on_file_copied,
            (&registration.0, file_id, blob_hash, content_type, source_file_id),
            first,
        ),
        file::actions_view(then@) == registration.1.answer_copied(
            file_id@,
            blob_hash@,
            content_type@,
            source_file_id@,
        ),
        call_ensures(
            <FileLifecycleService as FileLifecycleHook>::on_file_copied,
            (&after, file_id, blob_hash, content_type, source_file_id),
            all,
        ),
    ensures
        joins(all@, first@, then@),
        registration.0.hooks@.len() == 0 ==> first@.len() == 0,
{
    assert(file::actions_view(first@).len() == first@.len());
    lemma_joins(all@, first@, then@);
}

/// The replacing of a content is answered in the same way.
pub proof fn law_updates_reach_every_handler(
    registration: (FileLifecycleService, Arc<dyn FileLifecycleHook>),
    after: FileLifecycleService,
    file_id: &str,
    blob_hash: &str,
    content_type: &str,
    first: Vec<FileAction>,
    then: Vec<FileAction>,
    all: Vec<FileAction>,
)
    requires
        call_ensures(FileLifecycleService::with_hook, registration, after),
        call_ensures(
            <FileLifecycleService as FileLifecycleHook>::on_file_updated,
            (&registration.0, file_id, blob_hash, content_type),
            first,
        ),
        file::actions_view(then@) == registration.1.answer_updated(
            file_id@,
            blob_hash@,
            content_type@,
        ),
        call_ensures(
            <FileLifecycleService as FileLifecycleHook>::on_file_updated,
            (&after, file_id, blob_hash, content_type),
            all,
        ),
    ensures
        joins(all@, first@, then@),
        registration.0.hooks@.len() == 0 ==> first@.len() == 0,
{
    assert(file::actions_view(first@).len() == first@.len());
    lemma_joins(all@, first@, then@);
}

/// The deletion of a file is answered in the same way.
pub proof fn law_deletions_reach_every_handler(
    registration: (FileLifecycleService, Arc<dyn FileLifecycleHook>),
    after: FileLifecycleService,
    file_id: &str,
    first: Vec<FileAction>,
    then: Vec<FileAction>,
    all: Vec<FileAction>,
)
    requires
        call_ensures(FileLifecycleService::with_hook, registration, after),
        call_ensures(
            <FileLifecycleService as FileLifecycleHook>::on_file_deleted,
            (&registration.0, file_id),
            first,
        ),
        file::actions_view(then@) == registration.1.answer_deleted(
            file_id@,
        ),
        call_ensures(
            <FileLifecycleService as FileLifecycleHook>::on_file_deleted,
            (&after, file_id),
            all,
        ),
    ensures
        joins(all@, first@, then@),
        registration.0.hooks@.len() == 0 ==> first@.len() == 0,
{
    assert(file::actions_view(first@).len() == first@.len());
    lemma_joins(all@, first@, then@);
}

/// The work of `all` is that of `first` and then that of `then`.
pub open spec fn joins_on_contents(
    all: Seq<BlobAction>,
    first: Seq<BlobAction>,
    then: Seq<BlobAction>,
) -> bool {
    &&& all.len() == first.len() + then.len()
    &&& forall|i: int|
        0 <= i < first.len() ==> (#[trigger] all[i])->blob_hash@ == first[i]->blob_hash@
    &&& forall|i: int|
        first.len() <= i < all.len() ==> (#[trigger] all[i])->blob_hash@ == then[i
            - first.len()]->blob_hash@
}

proof fn lemma_joins_on_contents(
    all: Seq<BlobAction>,
    first: Seq<BlobAction>,
    then: Seq<BlobAction>,
)
    requires
        blob::actions_view(all) == blob::actions_view(first) + blob::actions_view(then),
    ensures
        joins_on_contents(all, first, then),
{
    assert(blob::actions_view(all).len() == all.len());
    assert(blob::actions_view(first).len() == first.len());
    assert(blob::actions_view(then).len() == then.len());
    assert forall|i: int| 0 <= i < first.len() implies (#[trigger] all[i])->blob_hash@
        == first[i]->blob_hash@ by {
        assert(blob::actions_view(all)[i] == blob::actions_view(first)[i]);
    }
    assert forall|i: int| first.len() <= i < all.len() implies (#[trigger] all[i])->blob_hash@
        == then[i - first.len()]->blob_hash@ by {
        assert(blob::actions_view(all)[i] == blob::actions_view(then)[i - first.len()]);
    }
}

/// The same holds of a service for contents.
pub proof fn law_handlers_of_contents_are_registered_in_order(
    created: BlobLifecycleService,
    default: BlobLifecycleService,
    registration: (BlobLifecycleService, Arc<dyn BlobLifecycleHook>),
    after: BlobLifecycleService,
)
    requires
        call_ensures(BlobLifecycleService::new, (), created),
        call_ensures(<BlobLifecycleService as Default>::default, (), default),
        call_ensures(BlobLifecycleService::with_hook, registration, after),
    ensures
        created.hooks@.len() == 0,
        default.hooks@.len() == 0,
        after.hooks@.len() == registration.0.hooks@.len() + 1,
        forall|i: int|
            0 <= i < registration.0.hooks@.len() ==> #[trigger] after.hooks@[i]
                == registration.0.hooks@[i],
        after.hooks@.last() == registration.1,
{
    assert forall|i: int| 0 <= i < registration.0.hooks@.len() implies #[trigger] after.hooks@[i]
        == registration.0.hooks@[i] by {
        assert(after.hooks@.drop_last()[i] == registration.0.hooks@[i]);
    }
}

/// A service answers the first storing of a content with what its handlers
/// answer, one after the other.
pub proof fn law_new_contents_reach_every_handler(
    registration: (BlobLifecycleService, Arc<dyn BlobLifecycleHook>),
    after: BlobLifecycleService,
    blob_hash: &str,
    content_type: Option<&str>,
    first: Vec<BlobAction>,
    then: Vec<BlobAction>,
    all: Vec<BlobAction>,
)
    requires
        call_ensures(BlobLifecycleService::with_hook, registration, after),
        call_ensures(
            <BlobLifecycleService as BlobLifecycleHook>::on_blob_created,
            (&registration.0, blob_hash, content_type),
            first,
        ),
        blob::actions_view(then@) == registration.1.answer_created(
            blob_hash@,
            blob::optional_view(content_type),
        ),
        call_ensures(
            <BlobLifecycleService as BlobLifecycleHook>::on_blob_created,
            (&after, blob_hash, content_type),
            all,
        ),
    ensures
        joins_on_contents(all@, first@, then@),
        registration.0.hooks@.len() == 0 ==> first@.len() == 0,
{
    assert(blob::actions_view(first@).len() == first@.len());
    lemma_joins_on_contents(all@, first@, then@);
}

/// The removal of a content is answered in the same way.
pub proof fn law_lost_contents_reach_every_handler(
    registration: (BlobLifecycleService, Arc<dyn BlobLifecycleHook>),
    after: BlobLifecycleService,
    blob_hash: &str,
    first: Vec<BlobAction>,
    then: Vec<BlobAction>,
    all: Vec<BlobAction>,
)
    requires
        call_ensures(BlobLifecycleService::with_hook, registration, after),
        call_ensures(
            <BlobLifecycleService as BlobLifecycleHook>::on_blob_deleted,
            (&registration.0, blob_hash),
            first,
        ),
        blob::actions_view(then@) == registration.1.answer_deleted(
            blob_hash@,
        ),
        call_ensures(
            <BlobLifecycleService as BlobLifecycleHook>::on_blob_deleted,
            (&after, blob_hash),
            all,
        ),
    ensures
        joins_on_contents(all@, first@, then@),
        registration.0.hooks@.len() == 0 ==> first@.len() == 0,
{
    assert(blob::actions_view(first@).len() == first@.len());
    lemma_joins_on_contents(all@, first@, then@);
}

} // verus!

//! Events in the life of a file.

use std::sync::Arc;

use vstd::prelude::*;

use super::fanout;
use super::fanout::only;
use crate::identifier::Uuid;

verus! {

/// Work that follows from an event in the life of a file. It runs in the
/// background.
#[derive(Debug)]
pub enum FileAction {
    /// Make the thumbnails of the file.
    GenerateThumbnails { file_id: String, blob_hash: String },
    /// Delete the thumbnails of the file, then make them anew.
    RefreshThumbnails { file_id: String, blob_hash: String },
    /// Delete the thumbnails of the file.
    DropThumbnails { file_id: String },
    /// Read the audio metadata from the content and save it.
    ExtractAudio { id: Uuid, blob_hash: String },
    /// Delete the audio metadata of the file, then read it anew.
    ReplaceAudio { id: Uuid, blob_hash: String },
    /// Take the audio metadata over from a file with the same content; read it
    /// where there is none.
    CloneOrExtractAudio { id: Uuid, blob_hash: String },
    /// Take the audio metadata over from the file that was copied.
    CloneAudio { id: Uuid, source_id: Uuid, blob_hash: String },
}

/// Work that follows from an event, with its texts as sequences.
pub enum FileActionView {
    GenerateThumbnails { file_id: Seq<char>, blob_hash: Seq<char> },
    RefreshThumbnails { file_id: Seq<char>, blob_hash: Seq<char> },
    DropThumbnails { file_id: Seq<char> },
    ExtractAudio { id: Uuid, blob_hash: Seq<char> },
    ReplaceAudio { id: Uuid, blob_hash: Seq<char> },
    CloneOrExtractAudio { id: Uuid, blob_hash: Seq<char> },
    CloneAudio { id: Uuid, source_id: Uuid, blob_hash: Seq<char> },
}

impl View for FileAction {
    type V = FileActionView;

    open spec fn view(&self) -> FileActionView {
        match self {
            FileAction::GenerateThumbnails { file_id, blob_hash } => {
                FileActionView::GenerateThumbnails { file_id: file_id@, blob_hash: blob_hash@ }
            },
            FileAction::RefreshThumbnails { file_id, blob_hash } => {
                FileActionView::RefreshThumbnails { file_id: file_id@, blob_hash: blob_hash@ }
            },
            FileAction::DropThumbnails { file_id } => {
                FileActionView::DropThumbnails { file_id: file_id@ }
            },
            FileAction::ExtractAudio { id, blob_hash } => {
                FileActionView::ExtractAudio { id: *id, blob_hash: blob_hash@ }
            },
            FileAction::ReplaceAudio { id, blob_hash } => {
                FileActionView::ReplaceAudio { id: *id, blob_hash: blob_hash@ }
            },
            FileAction::CloneOrExtractAudio { id, blob_hash } => {
                FileActionView::CloneOrExtractAudio { id: *id, blob_hash: blob_hash@ }
            },
            FileAction::CloneAudio { id, source_id, blob_hash } => {
                FileActionView::CloneAudio {
                    id: *id,
                    source_id: *source_id,
                    blob_hash: blob_hash@,
                }
            },
        }
    }
}

/// The actions with their texts as sequences.
pub open spec fn actions_view(actions: Seq<FileAction>) -> Seq<FileActionView> {
    Seq::new(actions.len(), |i: int| actions[i]@)
}

/// A handler that is told when a file is created, copied, updated or deleted
/// for good, and that answers with the work to do. Each handler answers all
/// four events, if only with nothing.
pub trait FileLifecycleHook: Send + Sync {
    spec fn answer_created(
        &self,
        file_id: Seq<char>,
        blob_hash: Seq<char>,
        content_type: Seq<char>,
        is_new_blob: bool,
    ) -> Seq<FileActionView>;

    spec fn answer_copied(
        &self,
        file_id: Seq<char>,
        blob_hash: Seq<char>,
        content_type: Seq<char>,
        source_file_id: Seq<char>,
    ) -> Seq<FileActionView>;

    spec fn answer_updated(
        &self,
        file_id: Seq<char>,
        blob_hash: Seq<char>,
        content_type: Seq<char>,
    ) -> Seq<FileActionView>;

    spec fn answer_deleted(&self, file_id: Seq<char>) -> Seq<FileActionView>;

    /// A new file was recorded. `is_new_blob` says whether its content is
    /// stored for the first time.
    fn on_file_created(
        &self,
        file_id: &str,
        blob_hash: &str,
        content_type: &str,
        is_new_blob: bool,
    ) -> (actions: Vec<FileAction>)
        ensures
            actions_view(actions@) == self.answer_created(
                file_id@,
                blob_hash@,
                content_type@,
                is_new_blob,
            ),
    ;

    /// A file was created as a copy of the file `source_file_id`.
    fn on_file_copied(
        &self,
        file_id: &str,
        blob_hash: &str,
        content_type: &str,
        source_file_id: &str,
    ) -> (actions: Vec<FileAction>)
        ensures
            actions_view(actions@) == self.answer_copied(
                file_id@,
                blob_hash@,
                content_type@,
                source_file_id@,
            ),
    ;

    /// The content of a file was replaced.
    fn on_file_updated(&self, file_id: &str, blob_hash: &str, content_type: &str) -> (actions: Vec<
        FileAction,
    >)
        ensures
            actions_view(actions@) == self.answer_updated(file_id@, blob_hash@, content_type@),
    ;

    /// A file was removed for good. Its content may still exist, as other
    /// files may share it.
    fn on_file_deleted(&self, file_id: &str) -> (actions: Vec<FileAction>)
        ensures
            actions_view(actions@) == self.answer_deleted(file_id@),
    ;
}

/// A handler that passes each event on to all handlers registered with it.
pub struct FileLifecycleService {
    pub hooks: Vec<Arc<dyn FileLifecycleHook>>,
}

impl Default for FileLifecycleService {
    fn default() -> (service: Self)
        ensures
            service.hooks@.len() == 0,
    {
        FileLifecycleService::new()
    }
}

impl FileLifecycleService {
    pub fn new() -> (service: Self)
        ensures
            service.hooks@.len() == 0,
    {
        FileLifecycleService { hooks: Vec::new() }
    }

    /// Registers one more handler, behind all others.
    pub fn with_hook(self, hook: Arc<dyn FileLifecycleHook>) -> (service: Self)
        ensures
            service.hooks@.len() == self.hooks@.len() + 1,
            service.hooks@.drop_last() == self.hooks@,
            service.hooks@.last() == hook,
    {
        let mut hooks = self.hooks;
        let mut last = only(hook);
        hooks.append(&mut last);
        proof {
            assert(hooks@.drop_last() =~= self.hooks@);
        }
        FileLifecycleService { hooks }
    }
}

proof fn lemma_actions_view_of_sum(a: Seq<FileAction>, b: Seq<FileAction>)
    ensures
        actions_view(a + b) == actions_view(a) + actions_view(b),
{
    assert(actions_view(a + b) =~= actions_view(a) + actions_view(b));
}

impl FileLifecycleHook for FileLifecycleService {
    open spec fn answer_created(
        &self,
        file_id: Seq<char>,
        blob_hash: Seq<char>,
        content_type: Seq<char>,
        is_new_blob: bool,
    ) -> Seq<FileActionView> {
        fanout::gathered(
            self.hooks@,
            |hook: Arc<dyn FileLifecycleHook>|
                hook.answer_created(file_id, blob_hash, content_type, is_new_blob),
        )
    }

    open spec fn answer_copied(
        &self,
        file_id: Seq<char>,
        blob_hash: Seq<char>,
        content_type: Seq<char>,
        source_file_id: Seq<char>,
    ) -> Seq<FileActionView> {
        fanout::gathered(
            self.hooks@,
            |hook: Arc<dyn FileLifecycleHook>|
                hook.answer_copied(file_id, blob_hash, content_type, source_file_id),
        )
    }

    open spec fn answer_updated(
        &self,
        file_id: Seq<char>,
        blob_hash: Seq<char>,
        content_type: Seq<char>,
    ) -> Seq<FileActionView> {
        fanout::gathered(
            self.hooks@,
            |hook: Arc<dyn FileLifecycleHook>|
                hook.answer_updated(file_id, blob_hash, content_type),
        )
    }

    open spec fn answer_deleted(&self, file_id: Seq<char>) -> Seq<FileActionView> {
        fanout::gathered(
            self.hooks@,
            |hook: Arc<dyn FileLifecycleHook>| hook.answer_deleted(file_id),
        )
    }

    fn on_file_created(
        &self,
        file_id: &str,
        blob_hash: &str,
        content_type: &str,
        is_new_blob: bool,
    ) -> (actions: Vec<FileAction>) {
        let mut actions: Vec<FileAction> = Vec::new();
        let ghost answer = |hook: Arc<dyn FileLifecycleHook>|
            hook.answer_created(file_id@, blob_hash@, content_type@, is_new_blob);
        let mut i: usize = 0;
        proof {
            assert(actions_view(actions@) =~= fanout::gathered(self.hooks@.take(0), answer));
        }
        while i < self.hooks.len()
            invariant
                i <= self.hooks@.len(),
                answer == (|hook: Arc<dyn FileLifecycleHook>|
                    hook.answer_created(file_id@, blob_hash@, content_type@, is_new_blob)),
                actions_view(actions@) == fanout::gathered(self.hooks@.take(i as int), answer),
            decreases self.hooks@.len() - i,
        {
            let mut more = self.hooks[i].on_file_created(
                file_id,
                blob_hash,
                content_type,
                is_new_blob,
            );
            proof {
                lemma_actions_view_of_sum(actions@, more@);
                assert(self.hooks@.take(i + 1).drop_last() =~= self.hooks@.take(i as int));
            }
            actions.append(&mut more);
            i += 1;
        }
        proof {
            assert(self.hooks@.take(i as int) =~= self.hooks@);
        }
        actions
    }

    fn on_file_copied(
        &self,
        file_id: &str,
        blob_hash: &str,
        content_type: &str,
        source_file_id: &str,
    ) -> (actions: Vec<FileAction>) {
        let mut actions: Vec<FileAction> = Vec::new();
        let ghost answer = |hook: Arc<dyn FileLifecycleHook>|
            hook.answer_copied(file_id@, blob_hash@, content_type@, source_file_id@);
        let mut i: usize = 0;
        proof {
            assert(actions_view(actions@) =~= fanout::gathered(self.hooks@.take(0), answer));
        }
        while i < self.hooks.len()
            invariant
                i <= self.hooks@.len(),
                answer == (|hook: Arc<dyn FileLifecycleHook>|
                    hook.answer_copied(file_id@, blob_hash@, content_type@, source_file_id@)),
                actions_view(actions@) == fanout::gathered(self.hooks@.take(i as int), answer),
            decreases self.hooks@.len() - i,
        {
            let mut more = self.hooks[i].on_file_copied(
                file_id,
                blob_hash,
                content_type,
                source_file_id,
            );
            proof {
                lemma_actions_view_of_sum(actions@, more@);
                assert(self.hooks@.take(i + 1).drop_last() =~= self.hooks@.take(i as int));
            }
            actions.append(&mut more);
            i += 1;
        }
        proof {
            assert(self.hooks@.take(i as int) =~= self.hooks@);
        }
        actions
    }

    fn on_file_updated(&self, file_id: &str, blob_hash: &str, content_type: &str) -> (actions: Vec<
        FileAction,
    >) {
        let mut actions: Vec<FileAction> = Vec::new();
        let ghost answer = |hook: Arc<dyn FileLifecycleHook>|
            hook.answer_updated(file_id@, blob_hash@, content_type@);
        let mut i: usize = 0;
        proof {
            assert(actions_view(actions@) =~= fanout::gathered(self.hooks@.take(0), answer));
        }
        while i < self.hooks.len()
            invariant
                i <= self.hooks@.len(),
                answer == (|hook: Arc<dyn FileLifecycleHook>|
                    hook.answer_updated(file_id@, blob_hash@, content_type@)),
                actions_view(actions@) == fanout::gathered(self.hooks@.take(i as int), answer),
            decreases self.hooks@.len() - i,
        {
            let mut more = self.hooks[i].on_file_updated(file_id, blob_hash, content_type);
            proof {
                lemma_actions_view_of_sum(actions@, more@);
                assert(self.hooks@.take(i + 1).drop_last() =~= self.hooks@.take(i as int));
            }
            actions.append(&mut more);
            i += 1;
        }
        proof {
            assert(self.hooks@.take(i as int) =~= self.hooks@);
        }
        actions
    }

    fn on_file_deleted(&self, file_id: &str) -> (actions: Vec<FileAction>) {
        let mut actions: Vec<FileAction> = Vec::new();
        let ghost answer = |hook: Arc<dyn FileLifecycleHook>| hook.answer_deleted(file_id@);
        let mut i: usize = 0;
        proof {
            assert(actions_view(actions@) =~= fanout::gathered(self.hooks@.take(0), answer));
        }
        while i < self.hooks.len()
            invariant
                i <= self.hooks@.len(),
                answer == (|hook: Arc<dyn FileLifecycleHook>| hook.answer_deleted(file_id@)),
                actions_view(actions@) == fanout::gathered(self.hooks@.take(i as int), answer),
            decreases self.hooks@.len() - i,
        {
            let mut more = self.hooks[i].on_file_deleted(file_id);
            proof {
                lemma_actions_view_of_sum(actions@, more@);
                assert(self.hooks@.take(i + 1).drop_last() =~= self.hooks@.take(i as int));
            }
            actions.append(&mut more);
            i += 1;
        }
        proof {
            assert(self.hooks@.take(i as int) =~= self.hooks@);
        }
        actions
    }
}

/// A service without handlers answers every event with nothing.
pub proof fn law_empty_service_does_nothing(
    service: FileLifecycleService,
    file_id: Seq<char>,
    blob_hash: Seq<char>,
    content_type: Seq<char>,
    is_new_blob: bool,
    source_file_id: Seq<char>,
)
    requires
        service.hooks@.len() == 0,
    ensures
        service.answer_created(file_id, blob_hash, content_type, is_new_blob).len() == 0,
        service.answer_copied(file_id, blob_hash, content_type, source_file_id).len() == 0,
        service.answer_updated(file_id, blob_hash, content_type).len() == 0,
        service.answer_deleted(file_id).len() == 0,
{
}

/// A handler that is registered with a service hears every event of the
/// service, and its answer comes behind those of the handlers before it.
pub proof fn law_registered_hook_hears_every_event(
    before: FileLifecycleService,
    after: FileLifecycleService,
    file_id: Seq<char>,
    blob_hash: Seq<char>,
    content_type: Seq<char>,
    is_new_blob: bool,
    source_file_id: Seq<char>,
)
    requires
        after.hooks@.len() == before.hooks@.len() + 1,
        after.hooks@.drop_last() == before.hooks@,
    ensures
        after.answer_created(file_id, blob_hash, content_type, is_new_blob)
            == before.answer_created(file_id, blob_hash, content_type, is_new_blob)
            + after.hooks@.last().answer_created(file_id, blob_hash, content_type, is_new_blob),
        after.answer_copied(file_id, blob_hash, content_type, source_file_id)
            == before.answer_copied(file_id, blob_hash, content_type, source_file_id)
            + after.hooks@.last().answer_copied(file_id, blob_hash, content_type, source_file_id),
        after.answer_updated(file_id, blob_hash, content_type) == before.answer_updated(
            file_id,
            blob_hash,
            content_type,
        ) + after.hooks@.last().answer_updated(file_id, blob_hash, content_type),
        after.answer_deleted(file_id) == before.answer_deleted(file_id)
            + after.hooks@.last().answer_deleted(file_id),
{
}

} // verus!

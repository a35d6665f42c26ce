//! Events in the life of a content that files share.

use std::sync::Arc;

use vstd::prelude::*;

use super::fanout;
use super::fanout::only;

verus! {

/// Work that follows from an event in the life of a content. It runs in the
/// background.
#[derive(Debug)]
pub enum BlobAction {
    /// Delete the thumbnails of the content.
    DropBlobThumbnails { blob_hash: String },
}

/// Work that follows from an event, with its texts as sequences.
pub enum BlobActionView {
    DropBlobThumbnails { blob_hash: Seq<char> },
}

impl View for BlobAction {
    type V = BlobActionView;

    open spec fn view(&self) -> BlobActionView {
        match self {
            BlobAction::DropBlobThumbnails { blob_hash } => {
                BlobActionView::DropBlobThumbnails { blob_hash: blob_hash@ }
            },
        }
    }
}

/// The actions with their texts as sequences.
pub open spec fn actions_view(actions: Seq<BlobAction>) -> Seq<BlobActionView> {
    Seq::new(actions.len(), |i: int| actions[i]@)
}

/// The characters of a text that may be missing.
pub open spec fn optional_view(text: Option<&str>) -> Option<Seq<char>> {
    match text {
        Some(t) => Some(t@),
        None => None,
    }
}

/// A handler that is told when a content is stored for the first time or
/// removed for good, and that answers with the work to do. Each handler
/// answers both events, if only with nothing.
pub trait BlobLifecycleHook: Send + Sync {
    spec fn answer_created(
        &self,
        blob_hash: Seq<char>,
        content_type: Option<Seq<char>>,
    ) -> Seq<BlobActionView>;

    spec fn answer_deleted(&self, blob_hash: Seq<char>) -> Seq<BlobActionView>;

    /// A content was stored that was not there before. Its type is given
    /// where it is known.
    fn on_blob_created(&self, blob_hash: &str, content_type: Option<&str>) -> (actions: Vec<
        BlobAction,
    >)
        ensures
            actions_view(actions@) == self.answer_created(blob_hash@, optional_view(content_type)),
    ;

    /// The last file with a content is gone, and the content was removed.
    fn on_blob_deleted(&self, blob_hash: &str) -> (actions: Vec<BlobAction>)
        ensures
            actions_view(actions@) == self.answer_deleted(blob_hash@),
    ;
}

/// A handler that passes each event on to all handlers registered with it.
pub struct BlobLifecycleService {
    pub hooks: Vec<Arc<dyn BlobLifecycleHook>>,
}

impl Default for BlobLifecycleService {
    fn default() -> (service: Self)
        ensures
            service.hooks@.len() == 0,
    {
        BlobLifecycleService::new()
    }
}

impl BlobLifecycleService {
    pub fn new() -> (service: Self)
        ensures
            service.hooks@.len() == 0,
    {
        BlobLifecycleService { hooks: Vec::new() }
    }

    /// Registers one more handler, behind all others.
    pub fn with_hook(self, hook: Arc<dyn BlobLifecycleHook>) -> (service: Self)
        ensures
            service.hooks@.len() == self.hooks@.len() + 1,
            service.hooks@.drop_last() == self.hooks@,
            service.hooks@.last() == hook,
    {
        let mut hooks = self.hooks;
        let mut last = only(hook);
        hooks.append(&mut last);
        proof {
            assert(hooks@.drop_last() =~= self.hooks@);
        }
        BlobLifecycleService { hooks }
    }
}

proof fn lemma_actions_view_of_sum(a: Seq<BlobAction>, b: Seq<BlobAction>)
    ensures
        actions_view(a + b) == actions_view(a) + actions_view(b),
{
    assert(actions_view(a + b) =~= actions_view(a) + actions_view(b));
}

impl BlobLifecycleHook for BlobLifecycleService {
    open spec fn answer_created(
        &self,
        blob_hash: Seq<char>,
        content_type: Option<Seq<char>>,
    ) -> Seq<BlobActionView> {
        fanout::gathered(
            self.hooks@,
            |hook: Arc<dyn BlobLifecycleHook>| hook.answer_created(blob_hash, content_type),
        )
    }

    open spec fn answer_deleted(&self, blob_hash: Seq<char>) -> Seq<BlobActionView> {
        fanout::gathered(
            self.hooks@,
            |hook: Arc<dyn BlobLifecycleHook>| hook.answer_deleted(blob_hash),
        )
    }

    fn on_blob_created(&self, blob_hash: &str, content_type: Option<&str>) -> (actions: Vec<
        BlobAction,
    >) {
        let mut actions: Vec<BlobAction> = Vec::new();
        let ghost answer = |hook: Arc<dyn BlobLifecycleHook>|
            hook.answer_created(blob_hash@, optional_view(content_type));
        let mut i: usize = 0;
        proof {
            assert(actions_view(actions@) =~= fanout::gathered(self.hooks@.take(0), answer));
        }
        while i < self.hooks.len()
            invariant
                i <= self.hooks@.len(),
                answer == (|hook: Arc<dyn BlobLifecycleHook>|
                    hook.answer_created(blob_hash@, optional_view(content_type))),
                actions_view(actions@) == fanout::gathered(self.hooks@.take(i as int), answer),
            decreases self.hooks@.len() - i,
        {
            let mut more = self.hooks[i].on_blob_created(blob_hash, content_type);
            proof {
                lemma_actions_view_of_sum(actions@, more@);
                assert(self.hooks@.take(i + 1).drop_last() =~= self.hooks@.take(i as int));
            }
            actions.append(&mut more);
            i += 1;
        }
        proof {
            assert(self.hooks@.take(i as int) =~= self.hooks@);
        }
        actions
    }

    fn on_blob_deleted(&self, blob_hash: &str) -> (actions: Vec<BlobAction>) {
        let mut actions: Vec<BlobAction> = Vec::new();
        let ghost answer = |hook: Arc<dyn BlobLifecycleHook>| hook.answer_deleted(blob_hash@);
        let mut i: usize = 0;
        proof {
            assert(actions_view(actions@) =~= fanout::gathered(self.hooks@.take(0), answer));
        }
        while i < self.hooks.len()
            invariant
                i <= self.hooks@.len(),
                answer == (|hook: Arc<dyn BlobLifecycleHook>| hook.answer_deleted(blob_hash@)),
                actions_view(actions@) == fanout::gathered(self.hooks@.take(i as int), answer),
            decreases self.hooks@.len() - i,
        {
            let mut more = self.hooks[i].on_blob_deleted(blob_hash);
            proof {
                lemma_actions_view_of_sum(actions@, more@);
                assert(self.hooks@.take(i + 1).drop_last() =~= self.hooks@.take(i as int));
            }
            actions.append(&mut more);
            i += 1;
        }
        proof {
            assert(self.hooks@.take(i as int) =~= self.hooks@);
        }
        actions
    }
}

/// A service without handlers answers every event with nothing.
pub proof fn law_empty_service_does_nothing(
    service: BlobLifecycleService,
    blob_hash: Seq<char>,
    content_type: Option<Seq<char>>,
)
    requires
        service.hooks@.len() == 0,
    ensures
        service.answer_created(blob_hash, content_type).len() == 0,
        service.answer_deleted(blob_hash).len() == 0,
{
}

/// A handler that is registered with a service hears every event of the
/// service, and its answer comes behind those of the handlers before it.
pub proof fn law_registered_hook_hears_every_event(
    before: BlobLifecycleService,
    after: BlobLifecycleService,
    blob_hash: Seq<char>,
    content_type: Option<Seq<char>>,
)
    requires
        after.hooks@.len() == before.hooks@.len() + 1,
        after.hooks@.drop_last() == before.hooks@,
    ensures
        after.answer_created(blob_hash, content_type) == before.answer_created(
            blob_hash,
            content_type,
        ) + after.hooks@.last().answer_created(blob_hash, content_type),
        after.answer_deleted(blob_hash) == before.answer_deleted(blob_hash)
            + after.hooks@.last().answer_deleted(blob_hash),
{
}

} // verus!

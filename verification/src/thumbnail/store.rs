//! Where thumbnails are kept: in a cache in memory, under the file that they
//! show, and in files, under the content that they were made from.

use vstd::prelude::*;
use vstd::string::*;

use super::size;
use super::size::ThumbnailSize;

verus! {

/// The place of a thumbnail in the cache: the file that it shows and its
/// size.
#[derive(Clone, PartialEq, Eq, Hash, Debug)]
pub struct ThumbnailCacheKey {
    pub file_id: String,
    pub size: ThumbnailSize,
}

impl View for ThumbnailCacheKey {
    type V = (Seq<char>, ThumbnailSize);

    open spec fn view(&self) -> (Seq<char>, ThumbnailSize) {
        (self.file_id@, self.size)
    }
}

impl ThumbnailCacheKey {
    pub fn new(file_id: &str, size: ThumbnailSize) -> (key: ThumbnailCacheKey)
        ensures
            key@ == (file_id@, size),
    {
        ThumbnailCacheKey { file_id: file_id.to_owned(), size }
    }
}

/// A file below the root directory of the thumbnails.
#[derive(Debug)]
pub struct ThumbnailPath {
    pub dir: &'static str,
    pub name: String,
}

impl View for ThumbnailPath {
    type V = (Seq<char>, Seq<char>);

    open spec fn view(&self) -> (Seq<char>, Seq<char>) {
        (self.dir@, self.name@)
    }
}

/// The file with the thumbnail of some content.
pub open spec fn blob_file(blob_hash: Seq<char>, s: ThumbnailSize) -> (Seq<char>, Seq<char>) {
    (size::dir_name(s), blob_hash + ".jpg"@)
}

/// The file with a thumbnail that was made elsewhere for a file.
pub open spec fn external_file(file_id: Seq<char>, s: ThumbnailSize) -> (Seq<char>, Seq<char>) {
    (size::dir_name(s), "ext-"@ + file_id + ".jpg"@)
}

impl ThumbnailPath {
    /// The file with the thumbnail of some content. Files with the same
    /// content share it.
    pub fn of_blob(blob_hash: &str, size: ThumbnailSize) -> (path: ThumbnailPath)
        ensures
            path@ == blob_file(blob_hash@, size),
    {
        ThumbnailPath { dir: size.dir_name(), name: blob_hash.to_owned().concat(".jpg") }
    }

    /// The file with a thumbnail that was made elsewhere. It belongs to one
    /// file and is not shared.
    pub fn of_external(file_id: &str, size: ThumbnailSize) -> (path: ThumbnailPath)
        ensures
            path@ == external_file(file_id@, size),
    {
        ThumbnailPath {
            dir: size.dir_name(),
            name: "ext-".to_owned().concat(file_id).concat(".jpg"),
        }
    }
}

proof fn lemma_same_front(a: Seq<char>, b: Seq<char>, tail: Seq<char>)
    ensures
        a + tail == b + tail <==> a == b,
{
    if a + tail == b + tail {
        assert((a + tail).len() == (b + tail).len());
        assert((a + tail).take(a.len() as int) =~= a);
        assert((b + tail).take(b.len() as int) =~= b);
    }
}

proof fn lemma_same_back(head: Seq<char>, a: Seq<char>, b: Seq<char>)
    ensures
        head + a == head + b <==> a == b,
{
    if head + a == head + b {
        assert((head + a).skip(head.len() as int) =~= a);
        assert((head + b).skip(head.len() as int) =~= b);
    }
}

/// Thumbnails of different contents or sizes are kept in different files.
pub proof fn law_blob_files_are_distinct(
    a: Seq<char>,
    size_a: ThumbnailSize,
    b: Seq<char>,
    size_b: ThumbnailSize,
)
    ensures
        blob_file(a, size_a) == blob_file(b, size_b) <==> a == b && size_a == size_b,
{
    size::law_each_size_has_its_own_directory(size_a, size_b);
    lemma_same_front(a, b, ".jpg"@);
}

/// Thumbnails that were made elsewhere are kept in different files for
/// different files or sizes.
pub proof fn law_external_files_are_distinct(
    a: Seq<char>,
    size_a: ThumbnailSize,
    b: Seq<char>,
    size_b: ThumbnailSize,
)
    ensures
        external_file(a, size_a) == external_file(b, size_b) <==> a == b && size_a == size_b,
{
    size::law_each_size_has_its_own_directory(size_a, size_b);
    lemma_same_front("ext-"@ + a, "ext-"@ + b, ".jpg"@);
    lemma_same_back("ext-"@, a, b);
}

/// The thumbnail of some content and one that was made elsewhere share a file
/// only where the content's hash is the text `ext-` with the file's
/// identifier behind it.
pub proof fn law_blob_and_external_files_are_distinct(
    blob_hash: Seq<char>,
    size_a: ThumbnailSize,
    file_id: Seq<char>,
    size_b: ThumbnailSize,
)
    ensures
        blob_file(blob_hash, size_a) == external_file(file_id, size_b) <==> size_a == size_b
            && blob_hash == "ext-"@ + file_id,
{
    size::law_each_size_has_its_own_directory(size_a, size_b);
    lemma_same_front(blob_hash, "ext-"@ + file_id, ".jpg"@);
}

// ── What is kept ────────────────────────────────────────────────────────────

/// The thumbnails that are kept at some moment: those in the cache and those
/// in files. The cache may drop an entry at any time.
pub struct Kept {
    pub memory: Map<(Seq<char>, ThumbnailSize), Seq<u8>>,
    pub files: Map<(Seq<char>, Seq<char>), Seq<u8>>,
}

/// One change to what is kept.
#[derive(Debug)]
pub enum Step {
    /// Drop the entry from the cache.
    Forget(ThumbnailCacheKey),
    /// Remove the file, if it is there.
    Remove(ThumbnailPath),
}

/// One change to what is kept, with its texts as sequences.
pub enum StepView {
    Forget((Seq<char>, ThumbnailSize)),
    Remove((Seq<char>, Seq<char>)),
}

impl View for Step {
    type V = StepView;

    open spec fn view(&self) -> StepView {
        match self {
            Step::Forget(key) => StepView::Forget(key@),
            Step::Remove(path) => StepView::Remove(path@),
        }
    }
}

/// The changes with their texts as sequences.
pub open spec fn steps_view(steps: Seq<Step>) -> Seq<StepView> {
    Seq::new(steps.len(), |i: int| steps[i]@)
}

/// What is kept after one change.
pub open spec fn after_step(kept: Kept, step: StepView) -> Kept {
    match step {
        StepView::Forget(key) => Kept { memory: kept.memory.remove(key), files: kept.files },
        StepView::Remove(path) => Kept { memory: kept.memory, files: kept.files.remove(path) },
    }
}

/// What is kept after several changes in their order.
pub open spec fn after_steps(kept: Kept, steps: Seq<StepView>) -> Kept
    decreases steps.len(),
{
    if steps.len() == 0 {
        kept
    } else {
        after_step(after_steps(kept, steps.drop_last()), steps.last())
    }
}

/// The changes that delete the thumbnails of a file: its entries in the cache
/// and the thumbnails that were made elsewhere for it.
pub open spec fn file_deletion(file_id: Seq<char>) -> Seq<StepView> {
    seq![
        StepView::Forget((file_id, ThumbnailSize::Icon)),
        StepView::Remove(external_file(file_id, ThumbnailSize::Icon)),
        StepView::Forget((file_id, ThumbnailSize::Preview)),
        StepView::Remove(external_file(file_id, ThumbnailSize::Preview)),
        StepView::Forget((file_id, ThumbnailSize::Large)),
        StepView::Remove(external_file(file_id, ThumbnailSize::Large)),
    ]
}

/// The changes that delete the thumbnails of some content.
pub open spec fn blob_deletion(blob_hash: Seq<char>) -> Seq<StepView> {
    seq![
        StepView::Remove(blob_file(blob_hash, ThumbnailSize::Icon)),
        StepView::Remove(blob_file(blob_hash, ThumbnailSize::Preview)),
        StepView::Remove(blob_file(blob_hash, ThumbnailSize::Large)),
    ]
}

/// The thumbnail that is found without rendering one: a non-empty entry of
/// the cache, else the one that was made elsewhere for the file, else that of
/// the content. Without the content's hash only the cache is asked.
pub open spec fn found(
    kept: Kept,
    file_id: Seq<char>,
    blob_hash: Option<Seq<char>>,
    s: ThumbnailSize,
) -> Option<Seq<u8>> {
    if kept.memory.contains_key((file_id, s)) && kept.memory[(file_id, s)].len() > 0 {
        Some(kept.memory[(file_id, s)])
    } else {
        match blob_hash {
            None => None,
            Some(hash) => if kept.files.contains_key(external_file(file_id, s)) {
                Some(kept.files[external_file(file_id, s)])
            } else if kept.files.contains_key(blob_file(hash, s)) {
                Some(kept.files[blob_file(hash, s)])
            } else {
                None
            },
        }
    }
}

/// Deleting the thumbnails of a file empties its entries in the cache and
/// removes the thumbnails that were made elsewhere for it. The entries of
/// other files and all other thumbnails in files stay.
pub proof fn law_deleting_a_file_drops_its_thumbnails_only(kept: Kept, file_id: Seq<char>)
    ensures
        ({
            let after = after_steps(kept, file_deletion(file_id));
            &&& forall|key: (Seq<char>, ThumbnailSize)| #[trigger]
                after.memory.contains_key(key) <==> kept.memory.contains_key(key) && key.0
                    != file_id
            &&& forall|key: (Seq<char>, ThumbnailSize)|
                after.memory.contains_key(key) ==> #[trigger] after.memory[key]
                    == kept.memory[key]
            &&& forall|path: (Seq<char>, Seq<char>)| #[trigger]
                after.files.contains_key(path) <==> kept.files.contains_key(path) && !(exists|
                    s: ThumbnailSize,
                | path == #[trigger] external_file(file_id, s))
            &&& forall|path: (Seq<char>, Seq<char>)|
                after.files.contains_key(path) ==> #[trigger] after.files[path]
                    == kept.files[path]
        }),
{
    let steps = file_deletion(file_id);
    let icon = ThumbnailSize::Icon;
    let preview = ThumbnailSize::Preview;
    let large = ThumbnailSize::Large;
    reveal_with_fuel(after_steps, 7);
    assert(steps.drop_last() =~= steps.take(5));
    assert(steps.take(5).drop_last() =~= steps.take(4));
    assert(steps.take(4).drop_last() =~= steps.take(3));
    assert(steps.take(3).drop_last() =~= steps.take(2));
    assert(steps.take(2).drop_last() =~= steps.take(1));
    assert(steps.take(1).drop_last() =~= steps.take(0));
    let after = after_steps(kept, steps);
    assert(after.memory == kept.memory.remove((file_id, icon)).remove((file_id, preview)).remove(
        (file_id, large),
    ));
    assert(after.files == kept.files.remove(external_file(file_id, icon)).remove(
        external_file(file_id, preview),
    ).remove(external_file(file_id, large)));
    assert forall|key: (Seq<char>, ThumbnailSize)| #[trigger]
        after.memory.contains_key(key) <==> kept.memory.contains_key(key) && key.0 != file_id by {
        assert(key == (key.0, key.1));
        match key.1 {
            ThumbnailSize::Icon => {},
            ThumbnailSize::Preview => {},
            ThumbnailSize::Large => {},
        }
    }
    assert forall|path: (Seq<char>, Seq<char>)| #[trigger]
        after.files.contains_key(path) <==> kept.files.contains_key(path) && !(exists|
            s: ThumbnailSize,
        | path == #[trigger] external_file(file_id, s)) by {
        if exists|s: ThumbnailSize| path == #[trigger] external_file(file_id, s) {
            let s = choose|s: ThumbnailSize| path == #[trigger] external_file(file_id, s);
            match s {
                ThumbnailSize::Icon => {},
                ThumbnailSize::Preview => {},
                ThumbnailSize::Large => {},
            }
        }
    }
}

/// After the thumbnails of a file are deleted, none is found for it without
/// the hash of its content. Thumbnails of its content are still found: other
/// files may share them.
pub proof fn law_deleted_thumbnails_are_not_found(
    kept: Kept,
    file_id: Seq<char>,
    blob_hash: Seq<char>,
    s: ThumbnailSize,
)
    ensures
        found(after_steps(kept, file_deletion(file_id)), file_id, None, s) is None,
        blob_hash != "ext-"@ + file_id ==> found(
            after_steps(kept, file_deletion(file_id)),
            file_id,
            Some(blob_hash),
            s,
        ) == (if kept.files.contains_key(blob_file(blob_hash, s)) {
            Some(kept.files[blob_file(blob_hash, s)])
        } else {
            None
        }),
{
    law_deleting_a_file_drops_its_thumbnails_only(kept, file_id);
    let after = after_steps(kept, file_deletion(file_id));
    assert(!after.memory.contains_key((file_id, s)));
    assert(!after.files.contains_key(external_file(file_id, s)));
    if blob_hash != "ext-"@ + file_id {
        assert forall|t: ThumbnailSize| blob_file(blob_hash, s) != #[trigger] external_file(
            file_id,
            t,
        ) by {
            law_blob_and_external_files_are_distinct(blob_hash, s, file_id, t);
        }
        assert(after.files.contains_key(blob_file(blob_hash, s)) <==> kept.files.contains_key(
            blob_file(blob_hash, s),
        ));
    }
}

/// Deleting the thumbnails of some content removes its files of all sizes and
/// nothing else.
pub proof fn law_deleting_a_blob_drops_its_thumbnails_only(kept: Kept, blob_hash: Seq<char>)
    ensures
        ({
            let after = after_steps(kept, blob_deletion(blob_hash));
            &&& after.memory == kept.memory
            &&& forall|path: (Seq<char>, Seq<char>)| #[trigger]
                after.files.contains_key(path) <==> kept.files.contains_key(path) && !(exists|
                    s: ThumbnailSize,
                | path == #[trigger] blob_file(blob_hash, s))
            &&& forall|path: (Seq<char>, Seq<char>)|
                after.files.contains_key(path) ==> #[trigger] after.files[path]
                    == kept.files[path]
        }),
{
    let steps = blob_deletion(blob_hash);
    reveal_with_fuel(after_steps, 4);
    assert(steps.drop_last() =~= steps.take(2));
    assert(steps.take(2).drop_last() =~= steps.take(1));
    assert(steps.take(1).drop_last() =~= steps.take(0));
    let after = after_steps(kept, steps);
    assert(after.files == kept.files.remove(blob_file(blob_hash, ThumbnailSize::Icon)).remove(
        blob_file(blob_hash, ThumbnailSize::Preview),
    ).remove(blob_file(blob_hash, ThumbnailSize::Large)));
    assert forall|path: (Seq<char>, Seq<char>)| #[trigger]
        after.files.contains_key(path) <==> kept.files.contains_key(path) && !(exists|
            s: ThumbnailSize,
        | path == #[trigger] blob_file(blob_hash, s)) by {
        if exists|s: ThumbnailSize| path == #[trigger] blob_file(blob_hash, s) {
            let s = choose|s: ThumbnailSize| path == #[trigger] blob_file(blob_hash, s);
            match s {
                ThumbnailSize::Icon => {},
                ThumbnailSize::Preview => {},
                ThumbnailSize::Large => {},
            }
        }
    }
}

} // verus!

//! Making the thumbnails of all sizes in the background.
//!
//! They are kept in files under the hash of the content, so that files with
//! the same content share them: where all of them exist, nothing is rendered.
//! Each type below stands for one request to the outside; the method that
//! takes the reply says what comes next.

use vstd::prelude::*;
use vstd::string::*;

use super::render;
use super::service::ThumbnailService;
use super::size;
use super::size::{ThumbnailError, ThumbnailSize};
use super::store;
use super::store::{Kept, ThumbnailCacheKey, ThumbnailPath};

verus! {

/// What the thumbnails are made for: a file and its content.
#[derive(Debug)]
pub struct Generation {
    pub file_id: String,
    pub blob_hash: String,
}

/// Ask whether the content still exists.
pub struct GuardBlob {
    pub work: Generation,
}

/// Ask whether the file with the thumbnail of that size exists; those of the
/// sizes before it do.
pub struct CheckFile {
    pub work: Generation,
    pub size: ThumbnailSize,
}

/// Load the file with the thumbnail of that size: all of them exist.
pub struct LoadFile {
    pub work: Generation,
    pub size: ThumbnailSize,
}

/// Wait for a permit to decode the image.
pub struct AcquirePermit {
    pub work: Generation,
}

/// Render the thumbnails of all sizes.
pub struct RenderAll {
    pub work: Generation,
}

/// Save these thumbnails.
pub struct SaveAll {
    pub work: Generation,
    pub thumbnails: Vec<(ThumbnailSize, Vec<u8>)>,
}

/// Write one thumbnail to its file.
pub struct SaveOne {
    pub key: ThumbnailCacheKey,
    pub path: ThumbnailPath,
    pub bytes: Vec<u8>,
}

/// What follows after a file was asked for.
pub enum AfterCheck {
    Check(CheckFile),
    /// All files exist.
    Load(LoadFile),
    /// A file is missing.
    Acquire(AcquirePermit),
}

/// Why no thumbnails came of a generation.
#[derive(Debug)]
pub enum GenerationFailure {
    /// Rendering failed.
    Failed(ThumbnailError),
    /// The task could not be brought to its end, for the reason given.
    Panicked(String),
}

impl ThumbnailService {
    /// Makes the thumbnails of all sizes for a file.
    pub fn generate_all_sizes_background(&self, file_id: String, blob_hash: String) -> (next:
        CheckFile)
        ensures
            next == (CheckFile { work: Generation { file_id, blob_hash }, size: ThumbnailSize::Icon }),
    {
        CheckFile { work: Generation { file_id, blob_hash }, size: ThumbnailSize::Icon }
    }

    /// Makes the thumbnails of all sizes for a file from the bytes of the
    /// image. If the content was deleted meanwhile, thumbnails made now would
    /// stay behind for ever, so its existence is checked first.
    pub fn generate_all_sizes_background_from_bytes(
        &self,
        file_id: String,
        blob_hash: String,
    ) -> (next: GuardBlob)
        ensures
            next == (GuardBlob { work: Generation { file_id, blob_hash } }),
    {
        GuardBlob { work: Generation { file_id, blob_hash } }
    }
}

impl GuardBlob {
    pub fn checked(self, blob_exists: bool) -> (next: Option<CheckFile>)
        ensures
            blob_exists ==> next == Some(CheckFile { work: self.work, size: ThumbnailSize::Icon }),
            !blob_exists ==> next is None,
    {
        if blob_exists {
            Some(CheckFile { work: self.work, size: ThumbnailSize::Icon })
        } else {
            None
        }
    }
}

/// The size behind that one, the smallest being the first.
pub open spec fn next_size(s: ThumbnailSize) -> Option<ThumbnailSize> {
    match s {
        ThumbnailSize::Icon => Some(ThumbnailSize::Preview),
        ThumbnailSize::Preview => Some(ThumbnailSize::Large),
        ThumbnailSize::Large => None,
    }
}

fn size_behind(s: ThumbnailSize) -> (next: Option<ThumbnailSize>)
    ensures
        next == next_size(s),
{
    match s {
        ThumbnailSize::Icon => Some(ThumbnailSize::Preview),
        ThumbnailSize::Preview => Some(ThumbnailSize::Large),
        ThumbnailSize::Large => None,
    }
}

/// How many sizes there are from that one on.
pub open spec fn sizes_from(s: ThumbnailSize) -> nat {
    match s {
        ThumbnailSize::Icon => 3,
        ThumbnailSize::Preview => 2,
        ThumbnailSize::Large => 1,
    }
}

impl CheckFile {
    /// The file to ask for.
    pub fn path(&self) -> (path: ThumbnailPath)
        ensures
            path@ == store::blob_file(self.work.blob_hash@, self.size),
    {
        ThumbnailPath::of_blob(self.work.blob_hash.as_str(), self.size)
    }

    /// What follows: the first file that is missing ends the checks.
    pub open spec fn after(self, exists: bool) -> AfterCheck {
        if !exists {
            AfterCheck::Acquire(AcquirePermit { work: self.work })
        } else {
            match next_size(self.size) {
                Some(size) => AfterCheck::Check(CheckFile { work: self.work, size }),
                None => AfterCheck::Load(
                    LoadFile { work: self.work, size: ThumbnailSize::Icon },
                ),
            }
        }
    }

    pub fn checked(self, exists: bool) -> (next: AfterCheck)
        ensures
            next == self.after(exists),
    {
        if !exists {
            AfterCheck::Acquire(AcquirePermit { work: self.work })
        } else {
            match size_behind(self.size) {
                Some(size) => AfterCheck::Check(CheckFile { work: self.work, size }),
                None => AfterCheck::Load(
                    LoadFile { work: self.work, size: ThumbnailSize::Icon },
                ),
            }
        }
    }

    /// Where the checks from here on lead.
    pub open spec fn conclusion(self, kept: Kept) -> AfterCheck
        decreases sizes_from(self.size),
    {
        let exists = kept.files.contains_key(
            store::blob_file(self.work.blob_hash@, self.size),
        );
        match self.after(exists) {
            AfterCheck::Check(next) => if sizes_from(next.size) < sizes_from(self.size) {
                next.conclusion(kept)
            } else {
                AfterCheck::Check(next)
            },
            decided => decided,
        }
    }
}

/// All thumbnails of that content exist.
pub open spec fn all_exist(kept: Kept, blob_hash: Seq<char>) -> bool {
    forall|s: ThumbnailSize| kept.files.contains_key(#[trigger] store::blob_file(blob_hash, s))
}

/// The image is rendered exactly where a thumbnail of its content is missing.
/// Where all of them exist, they are loaded into the cache instead.
pub proof fn law_existing_thumbnails_are_not_rendered_again(kept: Kept, work: Generation)
    ensures
        (CheckFile { work, size: ThumbnailSize::Icon }).conclusion(kept) == (if all_exist(kept, work.blob_hash@) {
            AfterCheck::Load(LoadFile { work, size: ThumbnailSize::Icon })
        } else {
            AfterCheck::Acquire(AcquirePermit { work })
        }),
{
    let hash = work.blob_hash@;
    let first = CheckFile { work, size: ThumbnailSize::Icon };
    let second = CheckFile { work, size: ThumbnailSize::Preview };
    let third = CheckFile { work, size: ThumbnailSize::Large };
    reveal_with_fuel(CheckFile::conclusion, 4);
    let icon = kept.files.contains_key(store::blob_file(hash, ThumbnailSize::Icon));
    let preview = kept.files.contains_key(store::blob_file(hash, ThumbnailSize::Preview));
    let large = kept.files.contains_key(store::blob_file(hash, ThumbnailSize::Large));
    if icon && preview && large {
        assert forall|s: ThumbnailSize|
            kept.files.contains_key(#[trigger] store::blob_file(hash, s)) by {
            match s {
                ThumbnailSize::Icon => {},
                ThumbnailSize::Preview => {},
                ThumbnailSize::Large => {},
            }
        }
        assert(all_exist(kept, hash));
    }
    assert(third.conclusion(kept) == third.after(large));
    assert(second.conclusion(kept) == if preview { third.conclusion(kept) } else {
        second.after(false)
    });
    assert(first.conclusion(kept) == if icon { second.conclusion(kept) } else {
        first.after(false)
    });
}

impl LoadFile {
    /// The file to load.
    pub fn path(&self) -> (path: ThumbnailPath)
        ensures
            path@ == store::blob_file(self.work.blob_hash@, self.size),
    {
        ThumbnailPath::of_blob(self.work.blob_hash.as_str(), self.size)
    }

    /// The entry for the cache that what was read makes: none where the file
    /// could not be read.
    pub open spec fn entry(self, data: Option<Seq<u8>>) -> Option<
        ((Seq<char>, ThumbnailSize), Seq<u8>),
    > {
        match data {
            Some(bytes) => Some(((self.work.file_id@, self.size), bytes)),
            None => None,
        }
    }

    /// The next file to load, if there is one.
    pub open spec fn rest(self) -> Option<LoadFile> {
        match next_size(self.size) {
            Some(size) => Some(LoadFile { work: self.work, size }),
            None => None,
        }
    }

    /// What to keep in the cache, and the next file to load. A file that
    /// cannot be read is passed over.
    pub fn loaded(self, data: Option<Vec<u8>>) -> (next: (
        Option<(ThumbnailCacheKey, Vec<u8>)>,
        Option<LoadFile>,
    ))
        ensures
            entry_view(next.0) == self.entry(data_view(data)),
            next.1 == self.rest(),
    {
        let keep = match data {
            Some(bytes) => Some(
                (ThumbnailCacheKey::new(self.work.file_id.as_str(), self.size), bytes),
            ),
            None => None,
        };
        match size_behind(self.size) {
            Some(size) => (keep, Some(LoadFile { work: self.work, size })),
            None => (keep, None),
        }
    }

    /// What is kept after this file and all behind it were loaded.
    pub open spec fn all_loaded(self, kept: Kept) -> Kept
        decreases sizes_from(self.size),
    {
        let path = store::blob_file(self.work.blob_hash@, self.size);
        let data = if kept.files.contains_key(path) {
            Some(kept.files[path])
        } else {
            None
        };
        let after = match self.entry(data) {
            Some((key, bytes)) => Kept {
                memory: kept.memory.insert(key, bytes),
                files: kept.files,
            },
            None => kept,
        };
        match self.rest() {
            Some(next) => if sizes_from(next.size) < sizes_from(self.size) {
                next.all_loaded(after)
            } else {
                after
            },
            None => after,
        }
    }
}

/// The bytes that were read, if any.
pub open spec fn data_view(data: Option<Vec<u8>>) -> Option<Seq<u8>> {
    match data {
        Some(bytes) => Some(bytes@),
        None => None,
    }
}

/// An entry for the cache with its parts as sequences.
pub open spec fn entry_view(entry: Option<(ThumbnailCacheKey, Vec<u8>)>) -> Option<
    ((Seq<char>, ThumbnailSize), Seq<u8>),
> {
    match entry {
        Some((key, bytes)) => Some((key@, bytes@)),
        None => None,
    }
}

/// Where all thumbnails of a content exist, a generation for a file puts
/// exactly those into the cache for that file, and changes no file.
pub proof fn law_existing_thumbnails_fill_the_cache(kept: Kept, work: Generation)
    requires
        all_exist(kept, work.blob_hash@),
    ensures
        ({
            let after = (LoadFile { work, size: ThumbnailSize::Icon }).all_loaded(kept);
            &&& after.files == kept.files
            &&& forall|s: ThumbnailSize|
                #![trigger store::blob_file(work.blob_hash@, s)]
                after.memory.contains_key((work.file_id@, s)) && after.memory[(work.file_id@, s)]
                    == kept.files[store::blob_file(work.blob_hash@, s)]
            &&& forall|key: (Seq<char>, ThumbnailSize)|
                key.0 != work.file_id@ ==> (#[trigger] after.memory.contains_key(key)
                    <==> kept.memory.contains_key(key))
        }),
{
    let hash = work.blob_hash@;
    let id = work.file_id@;
    let icon = store::blob_file(hash, ThumbnailSize::Icon);
    let preview = store::blob_file(hash, ThumbnailSize::Preview);
    let large = store::blob_file(hash, ThumbnailSize::Large);
    assert(kept.files.contains_key(icon) && kept.files.contains_key(preview)
        && kept.files.contains_key(large));
    reveal_with_fuel(LoadFile::all_loaded, 4);
    let after = (LoadFile { work, size: ThumbnailSize::Icon }).all_loaded(kept);
    assert(after.memory == kept.memory.insert((id, ThumbnailSize::Icon), kept.files[icon]).insert(
        (id, ThumbnailSize::Preview),
        kept.files[preview],
    ).insert((id, ThumbnailSize::Large), kept.files[large]));
    assert forall|s: ThumbnailSize|
        #![trigger store::blob_file(hash, s)]
        after.memory.contains_key((id, s)) && after.memory[(id, s)]
            == kept.files[store::blob_file(hash, s)] by {
        match s {
            ThumbnailSize::Icon => {},
            ThumbnailSize::Preview => {},
            ThumbnailSize::Large => {},
        }
    }
}

impl AcquirePermit {
    /// Without a permit the generation ends.
    pub fn acquired(self, granted: bool) -> (next: Option<RenderAll>)
        ensures
            granted ==> next == Some(RenderAll { work: self.work }),
            !granted ==> next is None,
    {
        if granted {
            Some(RenderAll { work: self.work })
        } else {
            None
        }
    }
}

impl RenderAll {
    /// Takes what became of the task; its error is the reason why it could
    /// not be brought to its end.
    pub fn rendered(
        self,
        reply: Result<Result<Vec<(ThumbnailSize, Vec<u8>)>, ThumbnailError>, String>,
    ) -> (next: Result<SaveAll, GenerationFailure>)
        ensures
            match reply {
                Ok(Ok(thumbnails)) => next == Ok::<_, GenerationFailure>(
                    SaveAll { work: self.work, thumbnails },
                ),
                Ok(Err(e)) => next == Err::<SaveAll, _>(GenerationFailure::Failed(e)),
                Err(e) => next == Err::<SaveAll, _>(GenerationFailure::Panicked(e)),
            },
    {
        match reply {
            Ok(Ok(thumbnails)) => Ok(SaveAll { work: self.work, thumbnails }),
            Ok(Err(e)) => Err(GenerationFailure::Failed(e)),
            Err(e) => Err(GenerationFailure::Panicked(e)),
        }
    }
}

/// The write of a thumbnail of that size for that work.
pub open spec fn is_save_of(
    save: SaveOne,
    work: Generation,
    s: ThumbnailSize,
    bytes: Vec<u8>,
) -> bool {
    &&& save.key@ == (work.file_id@, s)
    &&& save.path@ == store::blob_file(work.blob_hash@, s)
    &&& save.bytes == bytes
}

impl SaveAll {
    /// The writes, one for each thumbnail, in their order.
    pub fn saves(self) -> (saves: Vec<SaveOne>)
        ensures
            saves@.len() == self.thumbnails@.len(),
            forall|i: int|
                0 <= i < saves@.len() ==> is_save_of(
                    #[trigger] saves@[i],
                    self.work,
                    self.thumbnails@[i].0,
                    self.thumbnails@[i].1,
                ),
    {
        let work = self.work;
        let mut rest = self.thumbnails;
        let ghost all = rest@;
        let mut saves: Vec<SaveOne> = Vec::new();
        while rest.len() > 0
            invariant
                self.work == work,
                saves@.len() + rest@.len() == all.len(),
                rest@ == all.skip(saves@.len() as int),
                forall|i: int|
                    0 <= i < saves@.len() ==> is_save_of(
                        #[trigger] saves@[i],
                        work,
                        all[i].0,
                        all[i].1,
                    ),
            decreases rest@.len(),
        {
            proof {
                assert(rest@[0] == all[saves@.len() as int]);
                assert(rest@.remove(0) =~= all.skip(saves@.len() as int + 1));
            }
            let (size, bytes) = rest.remove(0);
            saves.push(
                SaveOne {
                    key: ThumbnailCacheKey::new(work.file_id.as_str(), size),
                    path: ThumbnailPath::of_blob(work.blob_hash.as_str(), size),
                    bytes,
                },
            );
        }
        saves
    }
}

impl SaveOne {
    /// What is kept after the file was written, or after the write failed.
    pub open spec fn saved(self, kept: Kept, written: bool) -> Kept {
        if written {
            Kept {
                memory: kept.memory.insert(self.key@, self.bytes@),
                files: kept.files.insert(self.path@, self.bytes@),
            }
        } else {
            kept
        }
    }

    /// What to keep in the cache: only a thumbnail that was written.
    pub fn written(self, success: bool) -> (keep: Option<(ThumbnailCacheKey, Vec<u8>)>)
        ensures
            success ==> keep == Some((self.key, self.bytes)),
            !success ==> keep is None,
    {
        if success {
            Some((self.key, self.bytes))
        } else {
            None
        }
    }
}

/// What is kept after all these writes succeeded.
pub open spec fn all_saved(kept: Kept, saves: Seq<SaveOne>) -> Kept
    decreases saves.len(),
{
    if saves.len() == 0 {
        kept
    } else {
        saves.last().saved(all_saved(kept, saves.drop_last()), true)
    }
}

proof fn lemma_saved_files_exist(kept: Kept, saves: Seq<SaveOne>, i: int)
    requires
        0 <= i < saves.len(),
    ensures
        all_saved(kept, saves).files.contains_key(saves[i].path@),
    decreases saves.len(),
{
    if i < saves.len() - 1 {
        lemma_saved_files_exist(kept, saves.drop_last(), i);
        assert(saves.drop_last()[i] == saves[i]);
    }
}

proof fn lemma_saved_entry_stays(kept: Kept, saves: Seq<SaveOne>, i: int)
    requires
        0 <= i < saves.len(),
        forall|a: int, b: int|
            0 <= a < b < saves.len() ==> (#[trigger] saves[a]).key@ != (#[trigger] saves[b]).key@,
    ensures
        all_saved(kept, saves).memory.contains_key(saves[i].key@),
        all_saved(kept, saves).memory[saves[i].key@] == saves[i].bytes@,
    decreases saves.len(),
{
    if i < saves.len() - 1 {
        let front = saves.drop_last();
        assert forall|a: int, b: int| 0 <= a < b < front.len() implies (#[trigger] front[a]).key@
            != (#[trigger] front[b]).key@ by {
            assert(saves[a].key@ != saves[b].key@);
        }
        lemma_saved_entry_stays(kept, front, i);
        assert(front[i] == saves[i]);
        assert(saves[i].key@ != saves[saves.len() - 1].key@);
    }
}

/// After the thumbnails of a file were saved, each in a size of its own, every
/// one that is not empty is found for the file.
pub proof fn law_saved_thumbnails_are_found(
    kept: Kept,
    work: Generation,
    thumbnails: Seq<(ThumbnailSize, Vec<u8>)>,
    saves: Seq<SaveOne>,
    i: int,
)
    requires
        saves.len() == thumbnails.len(),
        forall|j: int|
            0 <= j < saves.len() ==> is_save_of(
                #[trigger] saves[j],
                work,
                thumbnails[j].0,
                thumbnails[j].1,
            ),
        forall|a: int, b: int|
            0 <= a < b < thumbnails.len() ==> (#[trigger] thumbnails[a]).0 != (
            #[trigger] thumbnails[b]).0,
        0 <= i < thumbnails.len(),
        thumbnails[i].1@.len() > 0,
    ensures
        store::found(
            all_saved(kept, saves),
            work.file_id@,
            Some(work.blob_hash@),
            thumbnails[i].0,
        ) == Some(thumbnails[i].1@),
{
    assert forall|a: int, b: int| 0 <= a < b < saves.len() implies (#[trigger] saves[a]).key@ != (
    #[trigger] saves[b]).key@ by {
        assert(is_save_of(saves[a], work, thumbnails[a].0, thumbnails[a].1));
        assert(is_save_of(saves[b], work, thumbnails[b].0, thumbnails[b].1));
        assert(thumbnails[a].0 != thumbnails[b].0);
    }
    assert(is_save_of(saves[i], work, thumbnails[i].0, thumbnails[i].1));
    lemma_saved_entry_stays(kept, saves, i);
}

/// There is a thumbnail of that size.
pub open spec fn has_size(thumbnails: Seq<(ThumbnailSize, Vec<u8>)>, s: ThumbnailSize) -> bool {
    exists|i: int| 0 <= i < thumbnails.len() && (#[trigger] thumbnails[i]).0 == s
}

/// Rendering one thumbnail for each size gives thumbnails of all sizes, each
/// once.
pub proof fn law_rendering_covers_all_sizes(
    rendered: Seq<(ThumbnailSize, Result<Vec<u8>, ThumbnailError>)>,
    thumbnails: Vec<(ThumbnailSize, Vec<u8>)>,
)
    requires
        rendered.len() == 3,
        forall|i: int| 0 <= i < 3 ==> (#[trigger] rendered[i]).0 == size::all_sizes()[i],
        render::is_collected(Ok(thumbnails), rendered),
    ensures
        forall|s: ThumbnailSize| #[trigger] has_size(thumbnails@, s),
        forall|a: int, b: int|
            0 <= a < b < thumbnails@.len() ==> (#[trigger] thumbnails@[a]).0 != (
            #[trigger] thumbnails@[b]).0,
{
    assert forall|i: int| 0 <= i < 3 implies (#[trigger] thumbnails@[i]).0
        == size::all_sizes()[i] by {
        assert(rendered[i].0 == size::all_sizes()[i]);
    }
    assert forall|s: ThumbnailSize| #[trigger] has_size(thumbnails@, s) by {
        match s {
            ThumbnailSize::Icon => assert(thumbnails@[0].0 == s),
            ThumbnailSize::Preview => assert(thumbnails@[1].0 == s),
            ThumbnailSize::Large => assert(thumbnails@[2].0 == s),
        }
    }
}

/// Once the thumbnails of some content were saved in every size, the next
/// generation for that content, for whichever file, renders nothing.
pub proof fn law_saved_thumbnails_are_shared(
    kept: Kept,
    work: Generation,
    thumbnails: Seq<(ThumbnailSize, Vec<u8>)>,
    saves: Seq<SaveOne>,
    other: Generation,
)
    requires
        forall|s: ThumbnailSize| #[trigger] has_size(thumbnails, s),
        saves.len() == thumbnails.len(),
        forall|i: int|
            0 <= i < saves.len() ==> is_save_of(
                #[trigger] saves[i],
                work,
                thumbnails[i].0,
                thumbnails[i].1,
            ),
        other.blob_hash@ == work.blob_hash@,
    ensures
        (CheckFile { work: other, size: ThumbnailSize::Icon }).conclusion(all_saved(kept, saves)) == AfterCheck::Load(
            LoadFile { work: other, size: ThumbnailSize::Icon },
        ),
{
    let after = all_saved(kept, saves);
    assert forall|s: ThumbnailSize|
        after.files.contains_key(#[trigger] store::blob_file(other.blob_hash@, s)) by {
        assert(has_size(thumbnails, s));
        let i = choose|i: int| 0 <= i < thumbnails.len() && (#[trigger] thumbnails[i]).0 == s;
        assert(is_save_of(saves[i], work, thumbnails[i].0, thumbnails[i].1));
        lemma_saved_files_exist(kept, saves, i);
    }
    law_existing_thumbnails_are_not_rendered_again(after, other);
}

/// Once the thumbnails of some content were deleted, the next generation for
/// it renders them anew.
pub proof fn law_deleted_thumbnails_are_rendered_again(kept: Kept, work: Generation)
    ensures
        (CheckFile { work, size: ThumbnailSize::Icon }).conclusion(
            store::after_steps(kept, store::blob_deletion(work.blob_hash@)),
        ) == AfterCheck::Acquire(AcquirePermit { work }),
{
    let after = store::after_steps(kept, store::blob_deletion(work.blob_hash@));
    store::law_deleting_a_blob_drops_its_thumbnails_only(kept, work.blob_hash@);
    assert(!after.files.contains_key(store::blob_file(work.blob_hash@, ThumbnailSize::Icon)));
    assert(!all_exist(after, work.blob_hash@));
    law_existing_thumbnails_are_not_rendered_again(after, work);
}

} // verus!

//! Thumbnail sizes, errors and statistics.

use vstd::prelude::*;
use vstd::string::*;

use crate::errors::{DomainError, ErrorKind};

verus! {

/// The thumbnail sizes that are kept of an image.
#[derive(Clone, Copy, PartialEq, Eq, Structural, Hash, Debug)]
pub enum ThumbnailSize {
    /// Small icon for file listings.
    Icon,
    /// Medium preview for the gallery.
    Preview,
    /// Large preview for the detail view.
    Large,
}

/// The sizes as the application's callers name them.
#[derive(Clone, Copy, PartialEq, Eq, Structural, Hash, Debug)]
pub enum PortThumbnailSize {
    Icon,
    Preview,
    Large,
}

/// The longest side of a thumbnail of that size, in pixels.
pub open spec fn max_dimension(size: ThumbnailSize) -> u32 {
    match size {
        ThumbnailSize::Icon => 150,
        ThumbnailSize::Preview => 400,
        ThumbnailSize::Large => 800,
    }
}

/// The directory that keeps the thumbnails of that size.
pub open spec fn dir_name(size: ThumbnailSize) -> Seq<char> {
    match size {
        ThumbnailSize::Icon => "icon"@,
        ThumbnailSize::Preview => "preview"@,
        ThumbnailSize::Large => "large"@,
    }
}

/// All sizes, the smallest first.
pub open spec fn all_sizes() -> Seq<ThumbnailSize> {
    seq![ThumbnailSize::Icon, ThumbnailSize::Preview, ThumbnailSize::Large]
}

impl ThumbnailSize {
    /// The longest side of a thumbnail of this size, in pixels.
    pub fn max_dimension(&self) -> (max: u32)
        ensures
            max == max_dimension(*self),
    {
        match self {
            ThumbnailSize::Icon => 150,
            ThumbnailSize::Preview => 400,
            ThumbnailSize::Large => 800,
        }
    }

    /// The directory that keeps the thumbnails of this size.
    pub fn dir_name(&self) -> (name: &'static str)
        ensures
            name@ == dir_name(*self),
    {
        match self {
            ThumbnailSize::Icon => "icon",
            ThumbnailSize::Preview => "preview",
            ThumbnailSize::Large => "large",
        }
    }

    /// All sizes, the smallest first.
    pub fn all() -> (sizes: [ThumbnailSize; 3])
        ensures
            sizes@ == all_sizes(),
    {
        let sizes = [ThumbnailSize::Icon, ThumbnailSize::Preview, ThumbnailSize::Large];
        proof {
            assert(sizes@ =~= all_sizes());
        }
        sizes
    }
}

/// Every size is among all sizes.
pub proof fn law_all_sizes_are_listed(size: ThumbnailSize)
    ensures
        all_sizes().contains(size),
        all_sizes().no_duplicates(),
{
    match size {
        ThumbnailSize::Icon => assert(all_sizes()[0] == size),
        ThumbnailSize::Preview => assert(all_sizes()[1] == size),
        ThumbnailSize::Large => assert(all_sizes()[2] == size),
    }
}

/// Different sizes are kept in different directories.
pub proof fn law_each_size_has_its_own_directory(a: ThumbnailSize, b: ThumbnailSize)
    ensures
        dir_name(a) == dir_name(b) <==> a == b,
{
    reveal_strlit("icon");
    reveal_strlit("preview");
    reveal_strlit("large");
    assert("icon"@.len() == 4 && "preview"@.len() == 7 && "large"@.len() == 5);
}

impl From<PortThumbnailSize> for ThumbnailSize {
    fn from(size: PortThumbnailSize) -> (own: ThumbnailSize) {
        match size {
            PortThumbnailSize::Icon => ThumbnailSize::Icon,
            PortThumbnailSize::Preview => ThumbnailSize::Preview,
            PortThumbnailSize::Large => ThumbnailSize::Large,
        }
    }
}

impl vstd::std_specs::convert::FromSpecImpl<PortThumbnailSize> for ThumbnailSize {
    open spec fn obeys_from_spec() -> bool {
        true
    }

    open spec fn from_spec(size: PortThumbnailSize) -> ThumbnailSize {
        match size {
            PortThumbnailSize::Icon => ThumbnailSize::Icon,
            PortThumbnailSize::Preview => ThumbnailSize::Preview,
            PortThumbnailSize::Large => ThumbnailSize::Large,
        }
    }
}

/// Why a thumbnail cannot be had.
#[derive(Debug)]
pub enum ThumbnailError {
    IoError(String),
    ImageError(String),
    TaskError(String),
    UnsupportedFormat,
}

impl ThumbnailError {
    /// The message of this error.
    pub open spec fn message_text(self) -> Seq<char> {
        match self {
            ThumbnailError::IoError(m) => "IO error: "@ + m@,
            ThumbnailError::ImageError(m) => "Image processing error: "@ + m@,
            ThumbnailError::TaskError(m) => "Task error: "@ + m@,
            ThumbnailError::UnsupportedFormat => "Unsupported image format"@,
        }
    }

    /// The message of this error.
    pub fn message(&self) -> (text: String)
        ensures
            text@ == self.message_text(),
    {
        match self {
            ThumbnailError::IoError(m) => "IO error: ".to_owned().concat(m.as_str()),
            ThumbnailError::ImageError(m) => "Image processing error: ".to_owned().concat(
                m.as_str(),
            ),
            ThumbnailError::TaskError(m) => "Task error: ".to_owned().concat(m.as_str()),
            ThumbnailError::UnsupportedFormat => "Unsupported image format".to_owned(),
        }
    }

    /// This error as an error of the domain.
    pub fn to_domain_error(&self) -> (error: DomainError)
        ensures
            error.says(ErrorKind::InternalError, "Thumbnail"@, self.message_text()),
    {
        DomainError::new(ErrorKind::InternalError, "Thumbnail", self.message())
    }
}

/// Statistics about the thumbnail cache.
#[derive(Clone, Copy, PartialEq, Eq, Structural, Debug)]
pub struct ThumbnailStats {
    pub cached_thumbnails: usize,
    pub cache_size_bytes: usize,
    pub max_cache_bytes: usize,
}

} // verus!

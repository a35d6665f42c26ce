//! Favorites, with what a list of them shows.

use vstd::prelude::*;
use vstd::string::*;

use crate::clock::UtcTime;
use crate::numbers;
use crate::numbers::to_unsigned_64;
use crate::text::same_text;

verus! {

/// A favorite, with what is known of the file or folder.
#[derive(Debug)]
pub struct FavoriteItemDto {
    pub id: String,
    /// The user whose favorite it is.
    pub user_id: String,
    pub item_id: String,
    /// `file` or `folder`.
    pub item_type: String,
    pub created_at: UtcTime,
    pub item_name: Option<String>,
    /// The size in bytes; folders have none.
    pub item_size: Option<i64>,
    pub item_mime_type: Option<String>,
    pub parent_id: Option<String>,
    pub modified_at: Option<UtcTime>,
    pub item_path: Option<String>,
    /// The user who owns the file or folder.
    pub owner_id: Option<String>,
    pub icon_class: String,
    pub icon_special_class: String,
    pub category: String,
    pub size_formatted: String,
}

/// How an item is shown.
#[derive(Debug)]
pub struct DisplayFields {
    pub icon_class: String,
    pub icon_special_class: String,
    pub category: String,
    pub size_formatted: String,
}

/// What decides how an item is shown.
#[derive(Debug)]
pub enum DisplayQuery {
    Folder,
    File { name: String, mime_type: String, size: u64 },
}

/// What became of adding several favorites at once.
#[derive(Debug)]
pub struct BatchFavoritesResult {
    pub stats: BatchFavoritesStats,
    /// All favorites of the user.
    pub favorites: Vec<FavoriteItemDto>,
}

/// How many favorites were to be added, and how many were.
#[derive(Clone, Copy, PartialEq, Eq, Structural, Debug)]
pub struct BatchFavoritesStats {
    pub requested: usize,
    pub inserted: u64,
    pub already_existed: u64,
}

/// The name by which a file is shown: empty where it is not known.
pub open spec fn shown_name(item: FavoriteItemDto) -> Seq<char> {
    match item.item_name {
        Some(name) => name@,
        None => ""@,
    }
}

/// The type by which a file is shown, with a default where it is not known.
pub open spec fn shown_type(item: FavoriteItemDto) -> Seq<char> {
    match item.item_mime_type {
        Some(mime_type) => mime_type@,
        None => "application/octet-stream"@,
    }
}

/// The size by which a file is shown: nought where it is not known.
pub open spec fn shown_size(item: FavoriteItemDto) -> int {
    match item.item_size {
        Some(size) => numbers::unsigned_64(size),
        None => 0,
    }
}

/// `item` shows exactly these fields.
pub open spec fn shows(
    item: FavoriteItemDto,
    icon_class: Seq<char>,
    icon_special_class: Seq<char>,
    category: Seq<char>,
    size_formatted: Seq<char>,
) -> bool {
    &&& item.icon_class@ == icon_class
    &&& item.icon_special_class@ == icon_special_class
    &&& item.category@ == category
    &&& item.size_formatted@ == size_formatted
}

/// The two items differ in how they are shown at most.
pub open spec fn same_item(a: FavoriteItemDto, b: FavoriteItemDto) -> bool {
    &&& a.id == b.id
    &&& a.user_id == b.user_id
    &&& a.item_id == b.item_id
    &&& a.item_type == b.item_type
    &&& a.created_at == b.created_at
    &&& a.item_name == b.item_name
    &&& a.item_size == b.item_size
    &&& a.item_mime_type == b.item_mime_type
    &&& a.parent_id == b.parent_id
    &&& a.modified_at == b.modified_at
    &&& a.item_path == b.item_path
    &&& a.owner_id == b.owner_id
}

impl FavoriteItemDto {
    /// What decides how this item is shown.
    pub fn display_query(&self) -> (query: DisplayQuery)
        ensures
            if self.item_type@ == "folder"@ {
                query == DisplayQuery::Folder
            } else {
                query matches DisplayQuery::File { name, mime_type, size } && name@ == shown_name(
                    *self,
                ) && mime_type@ == shown_type(*self) && size == shown_size(*self)
            },
    {
        if same_text(self.item_type.as_str(), "folder") {
            return DisplayQuery::Folder;
        }
        let name = match &self.item_name {
            Some(name) => name.clone(),
            None => "".to_owned(),
        };
        let mime_type = match &self.item_mime_type {
            Some(mime_type) => mime_type.clone(),
            None => "application/octet-stream".to_owned(),
        };
        let size: u64 = match self.item_size {
            Some(size) => to_unsigned_64(size),
            None => 0,
        };
        DisplayQuery::File { name, mime_type, size }
    }

    /// Sets how this item is shown. A folder is always shown in the same way;
    /// for a file, `of_file` holds the fields for its
    /// [`display_query`](FavoriteItemDto::display_query).
    pub fn with_display_fields(self, of_file: DisplayFields) -> (item: FavoriteItemDto)
        ensures
            same_item(item, self),
            if self.item_type@ == "folder"@ {
                shows(item, "fas fa-folder"@, "folder-icon"@, "Folder"@, "--"@)
            } else {
                shows(
                    item,
                    of_file.icon_class@,
                    of_file.icon_special_class@,
                    of_file.category@,
                    of_file.size_formatted@,
                )
            },
    {
        let mut item = self;
        if same_text(item.item_type.as_str(), "folder") {
            item.icon_class = "fas fa-folder".to_owned();
            item.icon_special_class = "folder-icon".to_owned();
            item.category = "Folder".to_owned();
            item.size_formatted = "--".to_owned();
        } else {
            item.icon_class = of_file.icon_class;
            item.icon_special_class = of_file.icon_special_class;
            item.category = of_file.category;
            item.size_formatted = of_file.size_formatted;
        }
        item
    }
}

} // verus!

//! Favorites.

use vstd::prelude::*;
use vstd::string::*;

use crate::favorites::{DisplayFields, DisplayQuery, FavoriteItemDto};

verus! {

/// Folders are all shown alike. A file is shown by its name, its type and its
/// size; what is not known of it is an empty name, unspecified bytes and
/// nought. A negative size is taken without its sign, by its bits.
pub proof fn law_what_decides_how_favorites_are_shown(item: FavoriteItemDto, query: DisplayQuery)
    requires
        call_ensures(FavoriteItemDto::display_query, (&item,), query),
    ensures
        query is Folder <==> item.item_type@ == "folder"@,
        query matches DisplayQuery::File { name, mime_type, size } ==> {
            &&& match item.item_name {
                Some(known) => name@ == known@,
                None => name@.len() == 0,
            }
            &&& match item.item_mime_type {
                Some(known) => mime_type@ == known@,
                None => mime_type@ == "application/octet-stream"@,
            }
            &&& match item.item_size {
                Some(known) => (size - known) % 0x1_0000_0000_0000_0000 == 0,
                None => size == 0,
            }
        },
{
    reveal_strlit("");
}

/// How an item is shown changes nothing else of it.
pub proof fn law_showing_changes_nothing_else(
    item: FavoriteItemDto,
    of_file: DisplayFields,
    shown: FavoriteItemDto,
)
    requires
        call_ensures(FavoriteItemDto::with_display_fields, (item, of_file), shown),
    ensures
        shown.id == item.id,
        shown.user_id == item.user_id,
        shown.item_id == item.item_id,
        shown.item_type == item.item_type,
        shown.created_at == item.created_at,
        shown.item_name == item.item_name,
        shown.item_size == item.item_size,
        shown.item_mime_type == item.item_mime_type,
        shown.parent_id == item.parent_id,
        shown.modified_at == item.modified_at,
        shown.item_path == item.item_path,
        shown.owner_id == item.owner_id,
{
}

/// A folder has the looks of a folder and no size, whatever is given for files;
/// a file has just the looks that are given.
pub proof fn law_favorites_look_like_what_they_are(
    item: FavoriteItemDto,
    of_file: DisplayFields,
    shown: FavoriteItemDto,
)
    requires
        call_ensures(FavoriteItemDto::with_display_fields, (item, of_file), shown),
    ensures
        item.item_type@ == "folder"@ ==> {
            &&& shown.icon_class@ == "fas fa-folder"@
            &&& shown.icon_special_class@ == "folder-icon"@
            &&& shown.category@ == "Folder"@
            &&& shown.size_formatted@ == "--"@
        },
        item.item_type@ != "folder"@ ==> {
            &&& shown.icon_class@ == of_file.icon_class@
            &&& shown.icon_special_class@ == of_file.icon_special_class@
            &&& shown.category@ == of_file.category@
            &&& shown.size_formatted@ == of_file.size_formatted@
        },
{
}

} // verus!

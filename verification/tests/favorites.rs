use oxicloud::clock::UtcTime;
use oxicloud::favorites::{DisplayFields, DisplayQuery, FavoriteItemDto};

fn item(item_type: &str) -> FavoriteItemDto {
    FavoriteItemDto {
        id: "1".to_string(),
        user_id: "u".to_string(),
        item_id: "i".to_string(),
        item_type: item_type.to_string(),
        created_at: UtcTime { secs: 5, nanos: 0 },
        item_name: Some("song.mp3".to_string()),
        item_size: Some(2048),
        item_mime_type: Some("audio/mpeg".to_string()),
        parent_id: None,
        modified_at: None,
        item_path: None,
        owner_id: None,
        icon_class: String::new(),
        icon_special_class: String::new(),
        category: String::new(),
        size_formatted: String::new(),
    }
}

fn audio() -> DisplayFields {
    DisplayFields {
        icon_class: "fas fa-file-audio".to_string(),
        icon_special_class: "audio-icon".to_string(),
        category: "Audio".to_string(),
        size_formatted: "2.00 KB".to_string(),
    }
}

#[test]
fn folders_are_all_shown_alike() {
    assert!(matches!(item("folder").display_query(), DisplayQuery::Folder));
    let shown = item("folder").with_display_fields(audio());
    assert_eq!(shown.icon_class, "fas fa-folder");
    assert_eq!(shown.icon_special_class, "folder-icon");
    assert_eq!(shown.category, "Folder");
    assert_eq!(shown.size_formatted, "--");
    assert_eq!(shown.item_name.as_deref(), Some("song.mp3"));
}

#[test]
fn files_are_shown_by_name_type_and_size() {
    assert!(matches!(
        item("file").display_query(),
        DisplayQuery::File { name, mime_type, size }
            if name == "song.mp3" && mime_type == "audio/mpeg" && size == 2048
    ));
    let shown = item("file").with_display_fields(audio());
    assert_eq!(shown.icon_class, "fas fa-file-audio");
    assert_eq!(shown.icon_special_class, "audio-icon");
    assert_eq!(shown.category, "Audio");
    assert_eq!(shown.size_formatted, "2.00 KB");
}

#[test]
fn what_is_not_known_of_a_file_has_defaults() {
    let mut bare = item("file");
    bare.item_name = None;
    bare.item_mime_type = None;
    bare.item_size = None;
    assert!(matches!(
        bare.display_query(),
        DisplayQuery::File { name, mime_type, size }
            if name.is_empty() && mime_type == "application/octet-stream" && size == 0
    ));
    let mut negative = item("file");
    negative.item_size = Some(-1);
    assert!(matches!(
        negative.display_query(),
        DisplayQuery::File { size, .. } if size == u64::MAX
    ));
}

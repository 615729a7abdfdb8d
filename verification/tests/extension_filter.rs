use file_gatherer::extensions::ExtensionCategory;
use file_gatherer::extensions::category_extensions;
use file_gatherer::extensions::get_avaliable_extentions;
use file_gatherer::extensions::has_valid_extension;

fn strings(items: &[&str]) -> Vec<String> {
    items.iter().map(|s| s.to_string()).collect()
}

#[test]
fn catalog_lists_are_fixed() {
    assert_eq!(
        category_extensions(&ExtensionCategory::Images),
        strings(&["jpg", "jpeg", "png", "gif", "bmp", "tiff", "webp", "svg"])
    );
    assert_eq!(
        category_extensions(&ExtensionCategory::Videos),
        strings(&["mp4", "mkv", "avi", "mov", "wmv", "flv", "webm", "mpeg", "3gp"])
    );
    assert_eq!(
        category_extensions(&ExtensionCategory::CompressedFiles),
        strings(&["zip", "rar", "7z", "tar", "gz", "bz2", "xz"])
    );
    assert_eq!(
        category_extensions(&ExtensionCategory::Sounds),
        strings(&["mp3", "wav", "ogg", "flac", "aac", "m4a", "alac", "wma", "aiff", "opus"])
    );
}

#[test]
fn active_set_is_union_of_enabled_categories() {
    let all = get_avaliable_extentions(true, true, true, true);
    let mut expected = category_extensions(&ExtensionCategory::Images);
    expected.extend(category_extensions(&ExtensionCategory::Videos));
    expected.extend(category_extensions(&ExtensionCategory::CompressedFiles));
    expected.extend(category_extensions(&ExtensionCategory::Sounds));
    assert_eq!(all, expected);

    let mut seen: Vec<&String> = Vec::new();
    for ext in &all {
        assert!(!seen.contains(&ext), "duplicate extension {ext}");
        seen.push(ext);
    }

    let images_and_sounds = get_avaliable_extentions(true, false, false, true);
    let mut expected = category_extensions(&ExtensionCategory::Images);
    expected.extend(category_extensions(&ExtensionCategory::Sounds));
    assert_eq!(images_and_sounds, expected);
}

#[test]
fn empty_selection_yields_empty_set() {
    assert_eq!(get_avaliable_extentions(false, false, false, false), Vec::<String>::new());
}

#[test]
fn matching_is_case_insensitive() {
    let exts = get_avaliable_extentions(true, false, false, false);
    assert!(has_valid_extension("PHOTO.JPG", &exts));
    assert!(has_valid_extension("photo.jpg", &exts));
    assert!(has_valid_extension("Photo.JpG", &exts));
    assert!(has_valid_extension("shot.PNG", &exts));
    assert!(!has_valid_extension("PHOTO.JPG", &get_avaliable_extentions(false, true, false, false)));
}

#[test]
fn name_without_extension_never_matches() {
    let exts = get_avaliable_extentions(true, true, true, true);
    assert!(!has_valid_extension("README", &exts));
    assert!(!has_valid_extension("", &exts));
    assert!(!has_valid_extension("jpg", &exts));
}

#[test]
fn extension_is_taken_after_the_last_dot() {
    let exts = get_avaliable_extentions(false, false, true, false);
    assert!(has_valid_extension("backup.tar.gz", &exts));
    assert!(!has_valid_extension("backup.gz.txt", &exts));
    let empty_ext = "trailing.";
    assert!(!has_valid_extension(empty_ext, &exts));
}

#[test]
fn unrecognized_extensions_do_not_match() {
    let exts = get_avaliable_extentions(true, true, true, true);
    assert!(!has_valid_extension("note.txt", &exts));
    assert!(!has_valid_extension("binary.exe", &exts));
}

#[test]
fn non_ascii_names_match_by_their_extension() {
    let exts = get_avaliable_extentions(false, false, false, true);
    assert!(has_valid_extension("пісня.mp3", &exts));
    assert!(has_valid_extension("曲.FLAC", &exts));
    assert!(!has_valid_extension("пісня", &exts));
}

use std::path::Path;

use video_converter::file_browser::{BrowserEntry, EntryKind, FileBrowser};

fn join(dir: &str, name: &str) -> String {
    Path::new(dir).join(name).to_string_lossy().into_owned()
}

fn entry(path: &str, kind: EntryKind) -> BrowserEntry {
    BrowserEntry { path: path.to_string(), kind }
}

fn home() -> String {
    join("home", "videos")
}

fn listing() -> Vec<BrowserEntry> {
    vec![
        entry(&home(), EntryKind::Directory),
        entry(&join(&home(), "a.MP4"), EntryKind::File),
        entry(&join(&home(), "b.txt"), EntryKind::File),
        entry(&join(&home(), "c"), EntryKind::Directory),
        entry(&join(&home(), "d.webm"), EntryKind::File),
        entry(&join(&home(), "e.mkv"), EntryKind::Other),
        entry(&join(&home(), "noext"), EntryKind::File),
        entry(&join(&home(), ".mov"), EntryKind::File),
    ]
}

fn paths(browser: &FileBrowser) -> Vec<String> {
    browser.get_files().iter().map(|e| e.path.clone()).collect()
}

#[test]
fn file_list_has_parent_directories_and_videos() {
    let browser = FileBrowser::new(home(), listing());
    assert_eq!(
        paths(&browser),
        vec![
            "home".to_string(),
            join(&home(), "a.MP4"),
            join(&home(), "c"),
            join(&home(), "d.webm"),
            join(&home(), "e.mkv"),
        ]
    );
    assert_eq!(browser.get_files()[0].kind, EntryKind::Directory);
    assert_eq!(browser.get_selected_idx(), 0);
    assert_eq!(browser.get_current_dir(), home());
}

#[test]
fn directory_without_parent_has_no_parent_entry() {
    let browser = FileBrowser::new("".to_string(), vec![entry("x.avi", EntryKind::File)]);
    assert_eq!(paths(&browser), vec!["x.avi".to_string()]);
}

#[test]
fn empty_browser_selects_nothing() {
    let mut browser = FileBrowser::new("".to_string(), Vec::new());
    assert!(browser.get_files().is_empty());
    assert!(browser.get_selected_file().is_none());
    browser.next();
    browser.previous();
    assert_eq!(browser.get_selected_idx(), 0);
    assert!(!browser.is_selected_file());
    assert!(!browser.is_selected_parent_dir());
    assert!(!browser.enter_directory(listing()));
    assert!(browser.get_files().is_empty());
}

#[test]
fn selection_wraps_at_both_ends() {
    let mut browser = FileBrowser::new(home(), listing());
    let n = browser.get_files().len();
    assert_eq!(n, 5);
    browser.previous();
    assert_eq!(browser.get_selected_idx(), 4);
    browser.next();
    assert_eq!(browser.get_selected_idx(), 0);
    for expected in [1, 2, 3, 4, 0] {
        browser.next();
        assert_eq!(browser.get_selected_idx(), expected);
    }
    browser.next();
    browser.next();
    browser.previous();
    assert_eq!(browser.get_selected_idx(), 1);
    assert_eq!(browser.get_selected_file().map(|e| e.path.clone()), Some(join(&home(), "a.MP4")));
}

#[test]
fn selected_kinds() {
    let mut browser = FileBrowser::new(home(), listing());
    assert!(browser.is_selected_parent_dir());
    assert!(!browser.is_selected_file());
    browser.next();
    assert!(!browser.is_selected_parent_dir());
    assert!(browser.is_selected_file());
    browser.next();
    assert!(!browser.is_selected_file());
}

#[test]
fn entering_a_directory_lists_it() {
    let mut browser = FileBrowser::new(home(), listing());
    browser.next();
    assert!(!browser.enter_directory(Vec::new()), "a file is not entered");
    assert_eq!(browser.get_current_dir(), home());
    assert_eq!(browser.get_selected_idx(), 1);
    browser.next();
    let inside = join(&home(), "c");
    let entered = browser.enter_directory(vec![
        entry(&inside, EntryKind::Directory),
        entry(&join(&inside, "deep.avi"), EntryKind::File),
    ]);
    assert!(entered);
    assert_eq!(browser.get_current_dir(), inside);
    assert_eq!(paths(&browser), vec![home(), join(&inside, "deep.avi")]);
    assert_eq!(browser.get_selected_idx(), 0);
    assert!(browser.is_selected_parent_dir());
}

#[test]
fn refresh_resets_the_selection() {
    let mut browser = FileBrowser::new(home(), listing());
    browser.next();
    browser.next();
    browser.refresh_files(vec![entry(&join(&home(), "z.avi"), EntryKind::File)]);
    assert_eq!(paths(&browser), vec!["home".to_string(), join(&home(), "z.avi")]);
    assert_eq!(browser.get_selected_idx(), 0);
}

#[test]
fn display_labels() {
    let browser = FileBrowser::new(home(), listing());
    assert_eq!(browser.format_path_for_display("home", true), "..");
    assert_eq!(
        browser.format_path_for_display(&join(&home(), "c"), true),
        "\u{11f}\u{178}\u{201c} c"
    );
    assert_eq!(
        browser.format_path_for_display(&join(&home(), "a.MP4"), false),
        "\u{11f}\u{178}\u{ac} a.MP4"
    );
    assert_eq!(browser.format_path_for_display("..", false), "\u{11f}\u{178}\u{ac} <unknown>");
    assert_eq!(browser.format_path_for_display("..", true), "\u{11f}\u{178}\u{201c} <unknown>");
}

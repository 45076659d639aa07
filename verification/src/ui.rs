//! What the screen says: the texts and choices that the rendering shows.
//! Drawing them is the caller's part.

use vstd::prelude::*;
use crate::app::{current_format, App, AppTab, AppView};
use crate::converter::ConversionMode;
use crate::file_browser::EntryKind;
use crate::text::concat3;

verus! {

/// The place of the tab that is highlighted in the tab bar. While a
/// conversion runs, and when it is complete, the format selection stays
/// highlighted.
pub open spec fn tab_index(tab: AppTab) -> usize {
    match tab {
        AppTab::FileBrowser => 0,
        AppTab::FormatSelection => 1,
        AppTab::Settings => 2,
        AppTab::Help => 3,
        AppTab::Converting => 1,
        AppTab::Complete => 1,
    }
}

/// The place of the tab to highlight.
pub fn highlighted_tab(tab: AppTab) -> (r: usize)
    ensures
        r == tab_index(tab),
        r < 4,
{
    match tab {
        AppTab::FileBrowser => 0,
        AppTab::FormatSelection => 1,
        AppTab::Settings => 2,
        AppTab::Help => 3,
        AppTab::Converting => 1,
        AppTab::Complete => 1,
    }
}

/// The name of a backend on the screen.
pub open spec fn tool_label(mode: ConversionMode) -> Seq<char> {
    match mode {
        ConversionMode::NativeFFmpeg => "Native Rust FFmpeg"@,
        ConversionMode::FFmpeg => "External FFmpeg"@,
        ConversionMode::Simulation => "Simulation Mode"@,
    }
}

/// The name of a backend on the screen.
pub fn conversion_tool(mode: ConversionMode) -> (r: &'static str)
    ensures
        r@ == tool_label(mode),
{
    match mode {
        ConversionMode::NativeFFmpeg => "Native Rust FFmpeg",
        ConversionMode::FFmpeg => "External FFmpeg",
        ConversionMode::Simulation => "Simulation Mode",
    }
}

/// The text of the status bar: what the keys do on the tab shown.
pub open spec fn status_line(a: AppView) -> Seq<char> {
    match a.current_tab {
        AppTab::FileBrowser => if a.file_browser.files.len() == 0 {
            "No files found | Tab: Switch tabs | q: Quit"@
        } else if a.file_browser.files[a.file_browser.selected as int].kind == EntryKind::Directory {
            "Press Enter to open directory | Tab: Switch tabs | q: Quit"@
        } else {
            "Press Enter to select file | Tab: Switch tabs | q: Quit"@
        },
        AppTab::FormatSelection => "Selected Format: "@ + current_format(a).label()
            + " | Press Enter to convert | Tab: Switch tabs | q: Quit"@,
        AppTab::Converting => "Converting... Please wait | q: Quit"@,
        AppTab::Complete => "Conversion complete! Press 'n' for new conversion | q: Quit"@,
        AppTab::Settings => "Settings | Tab: Switch tabs | q: Quit"@,
        AppTab::Help => "Help & Information | Tab: Switch tabs | q: Quit"@,
    }
}

/// Builds the text of the status bar.
pub fn status_text(app: &App) -> (r: String)
    ensures
        r@ == status_line(app@),
{
    match app.current_tab {
        AppTab::FileBrowser => match app.file_browser.get_selected_file() {
            Some(entry) => match entry.kind {
                EntryKind::Directory => String::from_str(
                    "Press Enter to open directory | Tab: Switch tabs | q: Quit",
                ),
                _ => String::from_str("Press Enter to select file | Tab: Switch tabs | q: Quit"),
            },
            None => String::from_str("No files found | Tab: Switch tabs | q: Quit"),
        },
        AppTab::FormatSelection => concat3(
            "Selected Format: ",
            app.get_current_format().as_str(),
            " | Press Enter to convert | Tab: Switch tabs | q: Quit",
        ),
        AppTab::Converting => String::from_str("Converting... Please wait | q: Quit"),
        AppTab::Complete => String::from_str(
            "Conversion complete! Press 'n' for new conversion | q: Quit",
        ),
        AppTab::Settings => String::from_str("Settings | Tab: Switch tabs | q: Quit"),
        AppTab::Help => String::from_str("Help & Information | Tab: Switch tabs | q: Quit"),
    }
}

} // verus!

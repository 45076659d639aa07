use std::path::Path;

use video_converter::app::{AdvancedSetting, App, AppTab, Key, KeyAction};
use video_converter::converter::{
    Bitrate, ConversionMode, ConversionProgress, ConverterState, FrameRate, Resolution,
    VideoFormat, VideoSettings,
};
use video_converter::file_browser::{BrowserEntry, EntryKind};
use video_converter::ui::{conversion_tool, highlighted_tab, status_text};

fn join(dir: &str, name: &str) -> String {
    Path::new(dir).join(name).to_string_lossy().into_owned()
}

fn entry(path: &str, kind: EntryKind) -> BrowserEntry {
    BrowserEntry { path: path.to_string(), kind }
}

fn app() -> App {
    App::new(
        "videos".to_string(),
        vec![
            entry("videos", EntryKind::Directory),
            entry(&join("videos", "clip.avi"), EntryKind::File),
            entry(&join("videos", "more"), EntryKind::Directory),
        ],
    )
}

/// An application with the file `videos/clip.avi` selected, on the format tab.
fn app_on_formats() -> App {
    let mut a = app();
    a.file_browser.next();
    assert_eq!(a.handle_key(Key::Enter), KeyAction::Nothing);
    assert_eq!(a.current_tab, AppTab::FormatSelection);
    a
}

fn report(percent: u8, step: &str, is_complete: bool, has_error: bool) -> ConversionProgress {
    ConversionProgress {
        percent,
        current_step: step.to_string(),
        source_file: join("videos", "clip.avi"),
        target_format: VideoFormat::MP4,
        output_file: join("videos", "clip.mp4"),
        is_complete,
        has_error,
        error_message: if has_error { Some(step.to_string()) } else { None },
        video_settings: None,
    }
}

#[test]
fn application_starts_in_the_browser() {
    let a = app();
    assert_eq!(a.current_tab, AppTab::FileBrowser);
    assert_eq!(a.selected_format, None);
    assert_eq!(a.selected_format_idx, 0);
    assert!(!a.should_quit);
    assert!(!a.show_popup);
    assert!(a.conversion_progress.is_none());
    assert!(a.converter.is_none());
    assert_eq!(a.video_settings, VideoSettings::default());
    assert_eq!(a.selected_setting, AdvancedSetting::Resolution);
    assert_eq!(a.get_current_format(), VideoFormat::MP4);
    assert_eq!(a.file_browser.get_files().len(), 3);
}

#[test]
fn formats_cycle_forward_and_back() {
    let mut a = app();
    let mut seen = Vec::new();
    for _ in 0..5 {
        a.next_format();
        seen.push((a.selected_format_idx, a.get_current_format()));
    }
    assert_eq!(
        seen,
        vec![
            (1, VideoFormat::MKV),
            (2, VideoFormat::AVI),
            (3, VideoFormat::MOV),
            (4, VideoFormat::WEBM),
            (0, VideoFormat::MP4),
        ]
    );
    a.previous_format();
    assert_eq!((a.selected_format_idx, a.selected_format), (4, Some(VideoFormat::WEBM)));
    a.previous_format();
    assert_eq!((a.selected_format_idx, a.selected_format), (3, Some(VideoFormat::MOV)));
}

#[test]
fn format_index_beyond_the_list_counts_as_the_last() {
    let mut a = app();
    a.selected_format_idx = 17;
    a.update_selected_format();
    assert_eq!(a.selected_format, Some(VideoFormat::WEBM));
    a.next_format();
    assert_eq!(a.selected_format_idx, 3);
    a.selected_format_idx = usize::MAX;
    a.next_format();
    assert_eq!(a.selected_format_idx, ((usize::MAX % 5) + 1) % 5);
}

#[test]
fn tabs_cycle_and_stay_during_conversion() {
    let mut a = app();
    let mut forward = Vec::new();
    for _ in 0..4 {
        a.next_tab();
        forward.push(a.current_tab);
    }
    assert_eq!(forward, vec![AppTab::FormatSelection, AppTab::Settings, AppTab::Help, AppTab::FileBrowser]);
    let mut back = Vec::new();
    for _ in 0..4 {
        a.previous_tab();
        back.push(a.current_tab);
    }
    assert_eq!(back, vec![AppTab::Help, AppTab::Settings, AppTab::FormatSelection, AppTab::FileBrowser]);
    for tab in [AppTab::Converting, AppTab::Complete] {
        a.current_tab = tab;
        a.next_tab();
        assert_eq!(a.current_tab, tab);
        a.previous_tab();
        assert_eq!(a.current_tab, tab);
    }
}

#[test]
fn popup_and_quit() {
    let mut a = app();
    a.toggle_popup();
    assert!(a.show_popup);
    a.toggle_popup();
    assert!(!a.show_popup);
    a.quit();
    assert!(a.should_quit);
}

#[test]
fn settings_cursor_cycles() {
    let mut a = app();
    a.next_setting();
    assert_eq!(a.selected_setting, AdvancedSetting::Bitrate);
    a.next_setting();
    assert_eq!(a.selected_setting, AdvancedSetting::FrameRate);
    a.next_setting();
    assert_eq!(a.selected_setting, AdvancedSetting::Resolution);
    a.previous_setting();
    assert_eq!(a.selected_setting, AdvancedSetting::FrameRate);
    a.previous_setting();
    assert_eq!(a.selected_setting, AdvancedSetting::Bitrate);
    a.previous_setting();
    assert_eq!(a.selected_setting, AdvancedSetting::Resolution);
}

#[test]
fn settings_values_cycle_and_wrap_at_both_ends() {
    let mut a = app();
    let mut resolutions = Vec::new();
    for _ in 0..4 {
        a.next_resolution();
        resolutions.push(a.video_settings.resolution);
    }
    assert_eq!(
        resolutions,
        vec![Resolution::HD720p, Resolution::HD1080p, Resolution::UHD4K, Resolution::Original]
    );
    let mut bitrates = Vec::new();
    for _ in 0..4 {
        a.next_bitrate();
        bitrates.push(a.video_settings.bitrate);
    }
    assert_eq!(bitrates, vec![Bitrate::Low, Bitrate::Medium, Bitrate::High, Bitrate::Auto]);
    let mut rates = Vec::new();
    for _ in 0..4 {
        a.next_framerate();
        rates.push(a.video_settings.frame_rate);
    }
    assert_eq!(rates, vec![FrameRate::FPS24, FrameRate::FPS30, FrameRate::FPS60, FrameRate::Original]);

    a.selected_setting = AdvancedSetting::Resolution;
    a.change_selected_setting(false);
    assert_eq!(a.video_settings.resolution, Resolution::UHD4K);
    a.change_selected_setting(true);
    assert_eq!(a.video_settings.resolution, Resolution::Original);
    a.selected_setting = AdvancedSetting::Bitrate;
    a.change_selected_setting(false);
    assert_eq!(a.video_settings.bitrate, Bitrate::High);
    a.change_selected_setting(false);
    assert_eq!(a.video_settings.bitrate, Bitrate::Medium);
    a.change_selected_setting(true);
    assert_eq!(a.video_settings.bitrate, Bitrate::High);
    a.selected_setting = AdvancedSetting::FrameRate;
    a.change_selected_setting(false);
    assert_eq!(a.video_settings.frame_rate, FrameRate::FPS60);
    a.change_selected_setting(true);
    assert_eq!(a.video_settings.frame_rate, FrameRate::Original);
    assert_eq!(a.video_settings.resolution, Resolution::Original);
}

#[test]
fn changing_a_setting_forward_then_back_restores_it() {
    for setting in [AdvancedSetting::Resolution, AdvancedSetting::Bitrate, AdvancedSetting::FrameRate] {
        let mut a = app();
        a.selected_setting = setting;
        for _ in 0..4 {
            let before = a.video_settings;
            a.change_selected_setting(true);
            assert_ne!(a.video_settings, before);
            a.change_selected_setting(false);
            assert_eq!(a.video_settings, before);
            a.change_selected_setting(true);
        }
        assert_eq!(a.video_settings, VideoSettings::default());
    }
}

#[test]
fn keys_in_the_browser() {
    let mut a = app();
    assert_eq!(a.handle_key(Key::Down), KeyAction::Nothing);
    assert_eq!(a.file_browser.get_selected_idx(), 1);
    assert_eq!(a.handle_key(Key::Up), KeyAction::Nothing);
    assert_eq!(a.handle_key(Key::Up), KeyAction::Nothing);
    assert_eq!(a.file_browser.get_selected_idx(), 2);
    assert_eq!(a.handle_key(Key::Enter), KeyAction::OpenDirectory);
    assert_eq!(a.current_tab, AppTab::FileBrowser);
    assert_eq!(a.handle_key(Key::Up), KeyAction::Nothing);
    assert_eq!(a.handle_key(Key::Enter), KeyAction::Nothing);
    assert_eq!(a.current_tab, AppTab::FormatSelection);
}

#[test]
fn keys_on_the_format_tab() {
    let mut a = app_on_formats();
    assert_eq!(a.handle_key(Key::Down), KeyAction::Nothing);
    assert_eq!(a.selected_format, Some(VideoFormat::MKV));
    assert_eq!(a.handle_key(Key::Up), KeyAction::Nothing);
    assert_eq!(a.handle_key(Key::Up), KeyAction::Nothing);
    assert_eq!(a.selected_format, Some(VideoFormat::WEBM));
    assert_eq!(a.file_browser.get_selected_idx(), 1);
    assert_eq!(a.handle_key(Key::Enter), KeyAction::StartConversion);

    let mut b = app();
    b.next_tab();
    assert_eq!(b.handle_key(Key::Enter), KeyAction::Nothing, "a directory is not converted");
}

#[test]
fn other_keys() {
    let mut a = app();
    assert_eq!(a.handle_key(Key::Char('p')), KeyAction::Nothing);
    assert!(a.show_popup);
    assert_eq!(a.handle_key(Key::Esc), KeyAction::Nothing);
    assert!(!a.show_popup);
    assert_eq!(a.handle_key(Key::Esc), KeyAction::Nothing);
    assert!(!a.show_popup);
    assert_eq!(a.handle_key(Key::Right), KeyAction::Nothing);
    assert_eq!(a.current_tab, AppTab::FormatSelection);
    assert_eq!(a.handle_key(Key::Tab), KeyAction::Nothing);
    assert_eq!(a.current_tab, AppTab::Settings);
    assert_eq!(a.handle_key(Key::Left), KeyAction::Nothing);
    assert_eq!(a.current_tab, AppTab::FormatSelection);
    assert_eq!(a.handle_key(Key::Char('n')), KeyAction::Nothing);
    assert_eq!(a.current_tab, AppTab::FormatSelection, "`n` counts only when complete");
    assert_eq!(a.handle_key(Key::Char('x')), KeyAction::Nothing);
    assert_eq!(a.handle_key(Key::Other), KeyAction::Nothing);
    assert_eq!(a.handle_key(Key::Down), KeyAction::Nothing);
    assert_eq!(a.handle_key(Key::Char('q')), KeyAction::Nothing);
    assert!(a.should_quit);
}

#[test]
fn starting_a_conversion() {
    let mut a = app_on_formats();
    a.next_format();
    let backend = a.start_conversion(true, ConversionMode::NativeFFmpeg);
    assert_eq!(backend, Some(ConversionMode::NativeFFmpeg));
    assert_eq!(a.current_tab, AppTab::Converting);
    let first = a.conversion_progress.as_ref().expect("the first report");
    assert_eq!(first.current_step, "Initializing conversion...");
    assert_eq!(first.source_file, join("videos", "clip.avi"));
    assert_eq!(first.output_file, join("videos", "clip.mkv"));
    assert_eq!(first.target_format, VideoFormat::MKV);
    let converter = a.converter.as_ref().expect("the request");
    assert_eq!(converter.state(), ConverterState::Running(ConversionMode::NativeFFmpeg));
}

#[test]
fn nothing_starts_without_a_selected_file() {
    let mut a = app();
    a.next_tab();
    assert_eq!(a.start_conversion(true, ConversionMode::Simulation), None);
    assert_eq!(a.current_tab, AppTab::FormatSelection);
    assert!(a.converter.is_none());
    assert!(a.conversion_progress.is_none());
}

#[test]
fn source_deleted_after_selection() {
    let mut a = app_on_formats();
    let backend = a.start_conversion(false, ConversionMode::NativeFFmpeg);
    assert_eq!(backend, None, "no backend is started");
    let first = a.conversion_progress.as_ref().expect("the first report");
    assert!(first.has_error);
    assert!(!first.is_complete);
    assert_eq!(first.current_step, "Invalid input file");
    assert_eq!(a.current_tab, AppTab::FormatSelection, "the user may try again");
    assert_eq!(a.converter.as_ref().map(|c| c.state()), Some(ConverterState::Failed));
    assert_eq!(a.handle_key(Key::Enter), KeyAction::StartConversion);
}

#[test]
fn polling_follows_the_conversion() {
    let mut a = app_on_formats();
    a.start_conversion(true, ConversionMode::FFmpeg);
    assert_eq!(a.check_conversion_progress(None), None);
    assert_eq!(a.conversion_progress.as_ref().map(|p| p.percent), Some(0));

    assert_eq!(a.check_conversion_progress(Some(report(40, "Converting video... 40%", false, false))), None);
    assert_eq!(a.conversion_progress.as_ref().map(|p| p.percent), Some(40));
    assert_eq!(a.current_tab, AppTab::Converting);

    assert_eq!(a.check_conversion_progress(Some(report(100, "Conversion complete!", true, false))), None);
    assert_eq!(a.current_tab, AppTab::Complete);
    assert_eq!(a.conversion_progress.as_ref().map(|p| p.is_complete), Some(true));

    assert_eq!(a.handle_key(Key::Char('n')), KeyAction::Nothing);
    assert_eq!(a.current_tab, AppTab::FileBrowser);
    assert!(a.conversion_progress.is_none());
    assert!(a.converter.is_none());
    assert_eq!(a.check_conversion_progress(Some(report(1, "late", false, false))), None);
    assert!(a.conversion_progress.is_none(), "reports after a reset are dropped");
}

#[test]
fn polling_an_error_starts_the_simulation() {
    let mut a = app_on_formats();
    a.start_conversion(true, ConversionMode::FFmpeg);
    let next = a.check_conversion_progress(Some(report(30, "FFmpeg failed with exit code: 1", false, true)));
    assert_eq!(next, Some(ConversionMode::Simulation));
    let notice = a.conversion_progress.as_ref().expect("the notice");
    assert_eq!(
        notice.current_step,
        "FFmpeg error: FFmpeg failed with exit code: 1, falling back to simulation"
    );
    assert_eq!(notice.percent, 0);
    assert_eq!(a.current_tab, AppTab::Converting);
    let steps = a.converter.as_ref().unwrap().simulate_conversion();
    for step in steps {
        assert_eq!(a.check_conversion_progress(Some(step.progress)), None);
    }
    assert_eq!(a.current_tab, AppTab::Complete);
}

#[test]
fn backend_that_cannot_start_falls_back() {
    let mut a = app_on_formats();
    a.start_conversion(true, ConversionMode::NativeFFmpeg);
    assert_eq!(a.backend_failed("Invalid input file"), Some(ConversionMode::Simulation));
    assert_eq!(
        a.conversion_progress.as_ref().map(|p| p.current_step.clone()),
        Some("Native FFmpeg error: Invalid input file, falling back to simulation".to_string())
    );
    assert_eq!(a.backend_failed("again"), None, "nothing is left after the simulation");
    assert_eq!(a.current_tab, AppTab::FormatSelection);
    assert_eq!(a.converter.as_ref().map(|c| c.state()), Some(ConverterState::Failed));

    let mut idle = app();
    assert_eq!(idle.backend_failed("x"), None);
    assert!(idle.converter.is_none());
}

#[test]
fn reports_after_the_end_of_a_request_leave_the_tab() {
    // A request that failed at its start, and a user who moved on.
    let mut a = app_on_formats();
    assert_eq!(a.start_conversion(false, ConversionMode::NativeFFmpeg), None);
    a.next_tab();
    assert_eq!(a.current_tab, AppTab::Settings);
    assert_eq!(a.check_conversion_progress(Some(report(10, "late", false, false))), None);
    assert_eq!(a.current_tab, AppTab::Settings);
    assert_eq!(a.check_conversion_progress(Some(report(100, "late", true, false))), None);
    assert_eq!(a.current_tab, AppTab::Settings);
    assert_eq!(a.backend_failed("late"), None);
    assert_eq!(a.current_tab, AppTab::Settings);
    assert_eq!(a.conversion_progress.as_ref().map(|p| p.percent), Some(100));

    // A request that succeeded: later reports do not bring the tab back.
    let mut b = app_on_formats();
    b.start_conversion(true, ConversionMode::Simulation);
    b.check_conversion_progress(Some(report(100, "Conversion complete!", true, false)));
    assert_eq!(b.current_tab, AppTab::Complete);
    b.current_tab = AppTab::Help;
    assert_eq!(b.check_conversion_progress(Some(report(100, "again", true, false))), None);
    assert_eq!(b.check_conversion_progress(Some(report(0, "bad", false, true))), None);
    assert_eq!(b.current_tab, AppTab::Help);
}

#[test]
fn failure_of_the_last_backend_returns_to_the_format_selection() {
    let mut a = app_on_formats();
    a.start_conversion(true, ConversionMode::Simulation);
    assert_eq!(a.current_tab, AppTab::Converting);
    assert_eq!(a.check_conversion_progress(Some(report(30, "broke", false, true))), None);
    assert_eq!(a.current_tab, AppTab::FormatSelection);
    assert_eq!(a.converter.as_ref().map(|c| c.state()), Some(ConverterState::Failed));
    assert_eq!(a.conversion_progress.as_ref().map(|p| p.has_error), Some(true));
}

#[test]
fn reset_returns_to_the_browser() {
    let mut a = app_on_formats();
    a.start_conversion(true, ConversionMode::Simulation);
    a.reset();
    assert_eq!(a.current_tab, AppTab::FileBrowser);
    assert!(a.conversion_progress.is_none());
    assert!(a.converter.is_none());
    assert_eq!(a.file_browser.get_selected_idx(), 1);
}

#[test]
fn screen_texts() {
    assert_eq!(highlighted_tab(AppTab::FileBrowser), 0);
    assert_eq!(highlighted_tab(AppTab::FormatSelection), 1);
    assert_eq!(highlighted_tab(AppTab::Settings), 2);
    assert_eq!(highlighted_tab(AppTab::Help), 3);
    assert_eq!(highlighted_tab(AppTab::Converting), 1);
    assert_eq!(highlighted_tab(AppTab::Complete), 1);
    assert_eq!(conversion_tool(ConversionMode::NativeFFmpeg), "Native Rust FFmpeg");
    assert_eq!(conversion_tool(ConversionMode::FFmpeg), "External FFmpeg");
    assert_eq!(conversion_tool(ConversionMode::Simulation), "Simulation Mode");

    let mut a = app();
    assert_eq!(status_text(&a), "Press Enter to open directory | Tab: Switch tabs | q: Quit");
    a.file_browser.next();
    assert_eq!(status_text(&a), "Press Enter to select file | Tab: Switch tabs | q: Quit");
    a.current_tab = AppTab::FormatSelection;
    a.next_format();
    assert_eq!(
        status_text(&a),
        "Selected Format: MKV | Press Enter to convert | Tab: Switch tabs | q: Quit"
    );
    a.current_tab = AppTab::Converting;
    assert_eq!(status_text(&a), "Converting... Please wait | q: Quit");
    a.current_tab = AppTab::Complete;
    assert_eq!(status_text(&a), "Conversion complete! Press 'n' for new conversion | q: Quit");
    a.current_tab = AppTab::Settings;
    assert_eq!(status_text(&a), "Settings | Tab: Switch tabs | q: Quit");
    a.current_tab = AppTab::Help;
    assert_eq!(status_text(&a), "Help & Information | Tab: Switch tabs | q: Quit");
    let empty = App::new("".to_string(), Vec::new());
    assert_eq!(status_text(&empty), "No files found | Tab: Switch tabs | q: Quit");
}

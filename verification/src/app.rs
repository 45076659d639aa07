//! The state of the application: the tab shown, the selections made, the
//! settings, and the conversion under way. The user's keys and the polled
//! progress reports come in as calls; what to start comes out as values.

use vstd::prelude::*;
use crate::converter::{
    after_failure, after_report, initial_report, invalid_input_report, output_path, Bitrate,
    ConversionMode, ConversionProgress, ConverterState, ConverterView, FrameRate, ProgressView,
    Resolution, VideoConverter, VideoFormat, VideoSettings,
};
use crate::file_browser::{
    after_next, after_previous, entries, file_list, BrowserEntry, BrowserView, EntryKind,
    FileBrowser,
};

verus! {

/// The tabs of the application.
#[derive(Debug, Clone, Copy, PartialEq, Eq, Structural)]
pub enum AppTab {
    FileBrowser,
    FormatSelection,
    Converting,
    Complete,
    Settings,
    Help,
}

impl AppTab {
    /// The tab to the right. While a conversion runs, and when it is
    /// complete, the tab stays.
    pub open spec fn succ(self) -> AppTab {
        match self {
            AppTab::FileBrowser => AppTab::FormatSelection,
            AppTab::FormatSelection => AppTab::Settings,
            AppTab::Settings => AppTab::Help,
            AppTab::Help => AppTab::FileBrowser,
            AppTab::Converting => AppTab::Converting,
            AppTab::Complete => AppTab::Complete,
        }
    }

    /// The tab to the left. While a conversion runs, and when it is
    /// complete, the tab stays.
    pub open spec fn pred(self) -> AppTab {
        match self {
            AppTab::FileBrowser => AppTab::Help,
            AppTab::FormatSelection => AppTab::FileBrowser,
            AppTab::Settings => AppTab::FormatSelection,
            AppTab::Help => AppTab::Settings,
            AppTab::Converting => AppTab::Converting,
            AppTab::Complete => AppTab::Complete,
        }
    }
}

/// The setting that the cursor is on.
#[derive(Debug, Clone, Copy, PartialEq, Eq, Structural)]
pub enum AdvancedSetting {
    Resolution,
    Bitrate,
    FrameRate,
}

impl AdvancedSetting {
    /// The setting below, the first after the last.
    pub open spec fn succ(self) -> AdvancedSetting {
        match self {
            AdvancedSetting::Resolution => AdvancedSetting::Bitrate,
            AdvancedSetting::Bitrate => AdvancedSetting::FrameRate,
            AdvancedSetting::FrameRate => AdvancedSetting::Resolution,
        }
    }

    /// The setting above, the last before the first.
    pub open spec fn pred(self) -> AdvancedSetting {
        match self {
            AdvancedSetting::Resolution => AdvancedSetting::FrameRate,
            AdvancedSetting::Bitrate => AdvancedSetting::Resolution,
            AdvancedSetting::FrameRate => AdvancedSetting::Bitrate,
        }
    }
}

/// The format at a place of the format list; places beyond the list count
/// as the last.
pub open spec fn format_at(index: int) -> VideoFormat {
    if index == 0 {
        VideoFormat::MP4
    } else if index == 1 {
        VideoFormat::MKV
    } else if index == 2 {
        VideoFormat::AVI
    } else if index == 3 {
        VideoFormat::MOV
    } else {
        VideoFormat::WEBM
    }
}

/// The settings after a change of the setting that the cursor is on: one
/// step forward in its cycle, or one step back.
pub open spec fn changed_settings(
    settings: VideoSettings,
    selected: AdvancedSetting,
    increase: bool,
) -> VideoSettings {
    match selected {
        AdvancedSetting::Resolution => VideoSettings {
            resolution: if increase {
                settings.resolution.succ()
            } else {
                settings.resolution.pred()
            },
            ..settings
        },
        AdvancedSetting::Bitrate => VideoSettings {
            bitrate: if increase {
                settings.bitrate.succ()
            } else {
                settings.bitrate.pred()
            },
            ..settings
        },
        AdvancedSetting::FrameRate => VideoSettings {
            frame_rate: if increase {
                settings.frame_rate.succ()
            } else {
                settings.frame_rate.pred()
            },
            ..settings
        },
    }
}

/// The tab after the request moved from one state to another. The tab
/// changes only where a running request has ended: to the completion tab
/// where it has succeeded, and to the format selection, where the user may
/// try again, where it has failed. Else the tab stays.
pub open spec fn tab_after(tab: AppTab, before: ConverterState, after: ConverterState) -> AppTab {
    match (before, after) {
        (ConverterState::Running(_), ConverterState::Succeeded) => AppTab::Complete,
        (ConverterState::Running(_), ConverterState::Failed) => AppTab::FormatSelection,
        _ => tab,
    }
}

/// The state of the application.
#[derive(Debug)]
pub struct App {
    pub current_tab: AppTab,
    pub file_browser: FileBrowser,
    pub selected_format: Option<VideoFormat>,
    pub selected_format_idx: usize,
    pub should_quit: bool,
    pub show_popup: bool,
    /// The last report seen of the conversion.
    pub conversion_progress: Option<ConversionProgress>,
    /// The conversion request under way.
    pub converter: Option<VideoConverter>,
    pub video_settings: VideoSettings,
    pub selected_setting: AdvancedSetting,
}

/// The application's state, with its parts by their views.
pub ghost struct AppView {
    pub current_tab: AppTab,
    pub file_browser: BrowserView,
    pub selected_format: Option<VideoFormat>,
    pub selected_format_idx: usize,
    pub should_quit: bool,
    pub show_popup: bool,
    pub conversion_progress: Option<ProgressView>,
    pub converter: Option<ConverterView>,
    pub video_settings: VideoSettings,
    pub selected_setting: AdvancedSetting,
}

impl View for App {
    type V = AppView;

    open spec fn view(&self) -> AppView {
        AppView {
            current_tab: self.current_tab,
            file_browser: self.file_browser@,
            selected_format: self.selected_format,
            selected_format_idx: self.selected_format_idx,
            should_quit: self.should_quit,
            show_popup: self.show_popup,
            conversion_progress: match self.conversion_progress {
                Some(p) => Some(p@),
                None => None,
            },
            converter: match self.converter {
                Some(c) => Some(c@),
                None => None,
            },
            video_settings: self.video_settings,
            selected_setting: self.selected_setting,
        }
    }
}

/// Whether the browser's selected entry is a regular file.
pub open spec fn selects_file(b: BrowserView) -> bool {
    b.files.len() > 0 && b.files[b.selected as int].kind == EntryKind::File
}

/// The format selected; MP4 while none is.
pub open spec fn current_format(a: AppView) -> VideoFormat {
    match a.selected_format {
        Some(f) => f,
        None => VideoFormat::MP4,
    }
}

/// The application after a conversion of the selected file was started.
pub open spec fn started(a: AppView, source_exists: bool, mode: ConversionMode) -> AppView {
    let source = a.file_browser.files[a.file_browser.selected as int].path;
    let format = current_format(a);
    let output = output_path(source, format);
    AppView {
        current_tab: if source_exists {
            AppTab::Converting
        } else {
            a.current_tab
        },
        conversion_progress: Some(
            if source_exists {
                initial_report(source, format, output)
            } else {
                invalid_input_report(source, format, output)
            },
        ),
        converter: Some(
            ConverterView {
                mode,
                state: if source_exists {
                    ConverterState::Running(mode)
                } else {
                    ConverterState::Failed
                },
                source,
                format,
                output,
            },
        ),
        ..a
    }
}

/// The application after a poll of the progress channel, and the backend to
/// run next, if one is to take over.
pub open spec fn polled_view(a: AppView, polled: Option<ProgressView>) -> (
    AppView,
    Option<ConversionMode>,
) {
    match (a.converter, polled) {
        (Some(c), Some(event)) => {
            let seen = after_report(c, event);
            (
                AppView {
                    current_tab: tab_after(a.current_tab, c.state, seen.0.state),
                    conversion_progress: Some(
                        match seen.1 {
                            Some(notice) => notice,
                            None => event,
                        },
                    ),
                    converter: Some(seen.0),
                    ..a
                },
                if seen.1 is Some {
                    Some(ConversionMode::Simulation)
                } else {
                    None
                },
            )
        },
        _ => (a, None),
    }
}

/// The application after a backend could not start, and the backend to run
/// next, if one is to take over.
pub open spec fn failed_view(a: AppView, reason: Seq<char>) -> (AppView, Option<ConversionMode>) {
    match a.converter {
        Some(c) => {
            let fallen = after_failure(c, reason);
            (
                AppView {
                    current_tab: tab_after(a.current_tab, c.state, fallen.0.state),
                    conversion_progress: match fallen.1 {
                        Some(notice) => Some(notice),
                        None => a.conversion_progress,
                    },
                    converter: Some(fallen.0),
                    ..a
                },
                if fallen.1 is Some {
                    Some(ConversionMode::Simulation)
                } else {
                    None
                },
            )
        },
        None => (a, None),
    }
}

/// A key that the user pressed.
#[derive(Debug, Clone, Copy, PartialEq, Eq, Structural)]
pub enum Key {
    Char(char),
    Down,
    Up,
    Right,
    Tab,
    Left,
    Enter,
    Esc,
    /// Any other key.
    Other,
}

/// What the caller does after a key was handled.
#[derive(Debug, Clone, Copy, PartialEq, Eq, Structural)]
pub enum KeyAction {
    /// Nothing more.
    Nothing,
    /// Read the selected directory and let the browser enter it.
    OpenDirectory,
    /// Choose a backend and start the conversion.
    StartConversion,
}

/// The application after a key, and what the caller does then. `q` asks to
/// quit; `p` shows or hides the popup; `n` starts anew once a conversion is
/// complete; the arrows up and down move the selection in the browser and in
/// the format list; left, right and tab change the tab; escape hides the
/// popup. Enter in the browser opens a directory or takes a file to the
/// format selection; enter in the format selection starts the conversion of
/// a selected file.
pub open spec fn key_view(a: AppView, key: Key) -> (AppView, KeyAction) {
    match key {
        Key::Char(c) => if c == 'q' {
            (AppView { should_quit: true, ..a }, KeyAction::Nothing)
        } else if c == 'p' {
            (AppView { show_popup: !a.show_popup, ..a }, KeyAction::Nothing)
        } else if c == 'n' && a.current_tab == AppTab::Complete {
            (
                AppView {
                    current_tab: AppTab::FileBrowser,
                    conversion_progress: None,
                    converter: None,
                    ..a
                },
                KeyAction::Nothing,
            )
        } else {
            (a, KeyAction::Nothing)
        },
        Key::Down => match a.current_tab {
            AppTab::FileBrowser => (
                AppView { file_browser: after_next(a.file_browser), ..a },
                KeyAction::Nothing,
            ),
            AppTab::FormatSelection => (
                AppView {
                    selected_format_idx: ((a.selected_format_idx + 1) % 5) as usize,
                    selected_format: Some(format_at((a.selected_format_idx + 1) % 5)),
                    ..a
                },
                KeyAction::Nothing,
            ),
            _ => (a, KeyAction::Nothing),
        },
        Key::Up => match a.current_tab {
            AppTab::FileBrowser => (
                AppView { file_browser: after_previous(a.file_browser), ..a },
                KeyAction::Nothing,
            ),
            AppTab::FormatSelection => (
                AppView {
                    selected_format_idx: if a.selected_format_idx > 0 {
                        (a.selected_format_idx - 1) as usize
                    } else {
                        4
                    },
                    selected_format: Some(
                        format_at(
                            if a.selected_format_idx > 0 {
                                a.selected_format_idx - 1
                            } else {
                                4
                            },
                        ),
                    ),
                    ..a
                },
                KeyAction::Nothing,
            ),
            _ => (a, KeyAction::Nothing),
        },
        Key::Right | Key::Tab => (
            AppView { current_tab: a.current_tab.succ(), ..a },
            KeyAction::Nothing,
        ),
        Key::Left => (AppView { current_tab: a.current_tab.pred(), ..a }, KeyAction::Nothing),
        Key::Enter => match a.current_tab {
            AppTab::FileBrowser => if a.file_browser.files.len() == 0 {
                (a, KeyAction::Nothing)
            } else {
                match a.file_browser.files[a.file_browser.selected as int].kind {
                    EntryKind::Directory => (a, KeyAction::OpenDirectory),
                    EntryKind::File => (
                        AppView { current_tab: AppTab::FormatSelection, ..a },
                        KeyAction::Nothing,
                    ),
                    EntryKind::Other => (a, KeyAction::Nothing),
                }
            },
            AppTab::FormatSelection => if selects_file(a.file_browser) {
                (a, KeyAction::StartConversion)
            } else {
                (a, KeyAction::Nothing)
            },
            _ => (a, KeyAction::Nothing),
        },
        Key::Esc => (AppView { show_popup: false, ..a }, KeyAction::Nothing),
        Key::Other => (a, KeyAction::Nothing),
    }
}

impl App {
    /// The application as it starts: the browser shows `starting_dir`, whose
    /// entries are `listing`; nothing is selected or under way.
    pub fn new(starting_dir: String, listing: Vec<BrowserEntry>) -> (r: App)
        ensures
            r@ == (AppView {
                current_tab: AppTab::FileBrowser,
                file_browser: BrowserView {
                    current_dir: starting_dir@,
                    files: file_list(starting_dir@, entries(listing@)),
                    selected: 0,
                },
                selected_format: None,
                selected_format_idx: 0,
                should_quit: false,
                show_popup: false,
                conversion_progress: None,
                converter: None,
                video_settings: VideoSettings::initial(),
                selected_setting: AdvancedSetting::Resolution,
            }),
    {
        App {
            current_tab: AppTab::FileBrowser,
            file_browser: FileBrowser::new(starting_dir, listing),
            selected_format: None,
            selected_format_idx: 0,
            should_quit: false,
            show_popup: false,
            conversion_progress: None,
            converter: None,
            video_settings: VideoSettings::default(),
            selected_setting: AdvancedSetting::Resolution,
        }
    }

    /// Selects the next format of the list, the first after the last.
    pub fn next_format(&mut self)
        ensures
            final(self)@ == (AppView {
                selected_format_idx: ((old(self).selected_format_idx + 1) % 5) as usize,
                selected_format: Some(format_at((old(self).selected_format_idx + 1) % 5)),
                ..old(self)@
            }),
    {
        self.selected_format_idx = (self.selected_format_idx % 5 + 1) % 5;
        self.update_selected_format();
    }

    /// Selects the previous format of the list, the last before the first.
    pub fn previous_format(&mut self)
        ensures
            final(self)@ == (AppView {
                selected_format_idx: if old(self).selected_format_idx > 0 {
                    (old(self).selected_format_idx - 1) as usize
                } else {
                    4
                },
                selected_format: Some(
                    format_at(
                        if old(self).selected_format_idx > 0 {
                            old(self).selected_format_idx - 1
                        } else {
                            4
                        },
                    ),
                ),
                ..old(self)@
            }),
    {
        if self.selected_format_idx > 0 {
            self.selected_format_idx -= 1;
        } else {
            self.selected_format_idx = 4;
        }
        self.update_selected_format();
    }

    /// Sets the selected format to the one at the selected place.
    pub fn update_selected_format(&mut self)
        ensures
            final(self)@ == (AppView {
                selected_format: Some(format_at(old(self).selected_format_idx as int)),
                ..old(self)@
            }),
    {
        self.selected_format = Some(
            match self.selected_format_idx {
                0 => VideoFormat::MP4,
                1 => VideoFormat::MKV,
                2 => VideoFormat::AVI,
                3 => VideoFormat::MOV,
                _ => VideoFormat::WEBM,
            },
        );
    }

    /// Moves to the tab on the right.
    pub fn next_tab(&mut self)
        ensures
            final(self)@ == (AppView { current_tab: old(self).current_tab.succ(), ..old(self)@ }),
    {
        self.current_tab = match self.current_tab {
            AppTab::FileBrowser => AppTab::FormatSelection,
            AppTab::FormatSelection => AppTab::Settings,
            AppTab::Settings => AppTab::Help,
            AppTab::Help => AppTab::FileBrowser,
            AppTab::Converting => AppTab::Converting,
            AppTab::Complete => AppTab::Complete,
        };
    }

    /// Moves to the tab on the left.
    pub fn previous_tab(&mut self)
        ensures
            final(self)@ == (AppView { current_tab: old(self).current_tab.pred(), ..old(self)@ }),
    {
        self.current_tab = match self.current_tab {
            AppTab::FileBrowser => AppTab::Help,
            AppTab::FormatSelection => AppTab::FileBrowser,
            AppTab::Settings => AppTab::FormatSelection,
            AppTab::Help => AppTab::Settings,
            AppTab::Converting => AppTab::Converting,
            AppTab::Complete => AppTab::Complete,
        };
    }

    /// Shows the popup, or hides it.
    pub fn toggle_popup(&mut self)
        ensures
            final(self)@ == (AppView { show_popup: !old(self).show_popup, ..old(self)@ }),
    {
        self.show_popup = !self.show_popup;
    }

    /// Asks the application to end.
    pub fn quit(&mut self)
        ensures
            final(self)@ == (AppView { should_quit: true, ..old(self)@ }),
    {
        self.should_quit = true;
    }

    /// The format selected; MP4 while none is.
    pub fn get_current_format(&self) -> (r: VideoFormat)
        ensures
            r == (match self.selected_format {
                Some(f) => f,
                None => VideoFormat::MP4,
            }),
    {
        match self.selected_format {
            Some(f) => f,
            None => VideoFormat::MP4,
        }
    }

    /// Moves the cursor to the setting below.
    pub fn next_setting(&mut self)
        ensures
            final(self)@ == (AppView {
                selected_setting: old(self).selected_setting.succ(),
                ..old(self)@
            }),
    {
        self.selected_setting = match self.selected_setting {
            AdvancedSetting::Resolution => AdvancedSetting::Bitrate,
            AdvancedSetting::Bitrate => AdvancedSetting::FrameRate,
            AdvancedSetting::FrameRate => AdvancedSetting::Resolution,
        };
    }

    /// Moves the cursor to the setting above.
    pub fn previous_setting(&mut self)
        ensures
            final(self)@ == (AppView {
                selected_setting: old(self).selected_setting.pred(),
                ..old(self)@
            }),
    {
        self.selected_setting = match self.selected_setting {
            AdvancedSetting::Resolution => AdvancedSetting::FrameRate,
            AdvancedSetting::Bitrate => AdvancedSetting::Resolution,
            AdvancedSetting::FrameRate => AdvancedSetting::Bitrate,
        };
    }

    /// Steps the resolution forward in its cycle.
    pub fn next_resolution(&mut self)
        ensures
            final(self)@ == (AppView {
                video_settings: VideoSettings {
                    resolution: old(self).video_settings.resolution.succ(),
                    ..old(self).video_settings
                },
                ..old(self)@
            }),
    {
        self.video_settings.resolution = match self.video_settings.resolution {
            Resolution::Original => Resolution::HD720p,
            Resolution::HD720p => Resolution::HD1080p,
            Resolution::HD1080p => Resolution::UHD4K,
            Resolution::UHD4K => Resolution::Original,
        };
    }

    /// Steps the bitrate forward in its cycle.
    pub fn next_bitrate(&mut self)
        ensures
            final(self)@ == (AppView {
                video_settings: VideoSettings {
                    bitrate: old(self).video_settings.bitrate.succ(),
                    ..old(self).video_settings
                },
                ..old(self)@
            }),
    {
        self.video_settings.bitrate = match self.video_settings.bitrate {
            Bitrate::Auto => Bitrate::Low,
            Bitrate::Low => Bitrate::Medium,
            Bitrate::Medium => Bitrate::High,
            Bitrate::High => Bitrate::Auto,
        };
    }

    /// Steps the frame rate forward in its cycle.
    pub fn next_framerate(&mut self)
        ensures
            final(self)@ == (AppView {
                video_settings: VideoSettings {
                    frame_rate: old(self).video_settings.frame_rate.succ(),
                    ..old(self).video_settings
                },
                ..old(self)@
            }),
    {
        self.video_settings.frame_rate = match self.video_settings.frame_rate {
            FrameRate::Original => FrameRate::FPS24,
            FrameRate::FPS24 => FrameRate::FPS30,
            FrameRate::FPS30 => FrameRate::FPS60,
            FrameRate::FPS60 => FrameRate::Original,
        };
    }

    /// Changes the setting that the cursor is on: one step forward in its
    /// cycle, or one step back.
    pub fn change_selected_setting(&mut self, increase: bool)
        ensures
            final(self)@ == (AppView {
                video_settings: changed_settings(
                    old(self).video_settings,
                    old(self).selected_setting,
                    increase,
                ),
                ..old(self)@
            }),
    {
        match self.selected_setting {
            AdvancedSetting::Resolution => {
                if increase {
                    self.next_resolution();
                } else {
                    self.video_settings.resolution = match self.video_settings.resolution {
                        Resolution::Original => Resolution::UHD4K,
                        Resolution::HD720p => Resolution::Original,
                        Resolution::HD1080p => Resolution::HD720p,
                        Resolution::UHD4K => Resolution::HD1080p,
                    };
                }
            },
            AdvancedSetting::Bitrate => {
                if increase {
                    self.next_bitrate();
                } else {
                    self.video_settings.bitrate = match self.video_settings.bitrate {
                        Bitrate::Auto => Bitrate::High,
                        Bitrate::Low => Bitrate::Auto,
                        Bitrate::Medium => Bitrate::Low,
                        Bitrate::High => Bitrate::Medium,
                    };
                }
            },
            AdvancedSetting::FrameRate => {
                if increase {
                    self.next_framerate();
                } else {
                    self.video_settings.frame_rate = match self.video_settings.frame_rate {
                        FrameRate::Original => FrameRate::FPS60,
                        FrameRate::FPS24 => FrameRate::Original,
                        FrameRate::FPS30 => FrameRate::FPS24,
                        FrameRate::FPS60 => FrameRate::FPS30,
                    };
                }
            },
        }
    }

    /// Returns to the file browser and drops the conversion: its last report
    /// and its request.
    pub fn reset(&mut self)
        ensures
            final(self)@ == (AppView {
                current_tab: AppTab::FileBrowser,
                conversion_progress: None,
                converter: None,
                ..old(self)@
            }),
    {
        self.current_tab = AppTab::FileBrowser;
        self.conversion_progress = None;
        self.converter = None;
    }

    /// Starts a conversion of the selected entry to the selected format,
    /// with the backend chosen. Nothing starts unless a regular file is
    /// selected. Where the file is gone by now, the request fails at once:
    /// its error is the last report, and the tab stays, so that the user may
    /// try again. Else the tab is the converting one, and the backend to run
    /// is returned.
    pub fn start_conversion(&mut self, source_exists: bool, mode: ConversionMode) -> (r: Option<
        ConversionMode,
    >)
        ensures
            !selects_file(old(self)@.file_browser) ==> r is None && final(self)@ == old(self)@,
            selects_file(old(self)@.file_browser) ==> final(self)@ == started(
                old(self)@,
                source_exists,
                mode,
            ) && r == (if source_exists {
                Some(mode)
            } else {
                None
            }),
    {
        let format = self.get_current_format();
        let source = match self.file_browser.get_selected_file() {
            Some(entry) => match entry.kind {
                EntryKind::File => String::from_str(entry.path.as_str()),
                _ => {
                    return None;
                },
            },
            None => {
                return None;
            },
        };
        let mut converter = VideoConverter::new(mode);
        let mut events = converter.convert(source, format, source_exists);
        assert(crate::converter::trace(events@).len() == 1);
        assert(crate::converter::trace(events@)[0] == events@[0]@);
        let first = events.pop();
        self.conversion_progress = first;
        self.converter = Some(converter);
        if source_exists {
            self.current_tab = AppTab::Converting;
            Some(mode)
        } else {
            None
        }
    }

    /// Changes the tab where a running request has ended.
    fn end_of_request(&mut self, before: ConverterState, after: ConverterState)
        ensures
            final(self)@ == (AppView {
                current_tab: tab_after(old(self).current_tab, before, after),
                ..old(self)@
            }),
    {
        match before {
            ConverterState::Running(_) => match after {
                ConverterState::Succeeded => {
                    self.current_tab = AppTab::Complete;
                },
                ConverterState::Failed => {
                    self.current_tab = AppTab::FormatSelection;
                },
                _ => {},
            },
            _ => {},
        }
    }

    /// Takes what a poll of the progress channel gave. Without a request
    /// under way, or without a report, nothing changes. Else the request sees
    /// the report, and the report becomes the last one, unless the backend
    /// failed and the simulation takes over: then the notice of that becomes
    /// the last report, and the simulation is returned as the backend to run.
    /// The tab changes only where the report ends a running request.
    pub fn check_conversion_progress(&mut self, polled: Option<ConversionProgress>) -> (r: Option<
        ConversionMode,
    >)
        ensures
            final(self)@ == polled_view(
                old(self)@,
                match polled {
                    Some(p) => Some(p@),
                    None => None,
                },
            ).0,
            r == polled_view(
                old(self)@,
                match polled {
                    Some(p) => Some(p@),
                    None => None,
                },
            ).1,
    {
        let event = match polled {
            Some(event) => event,
            None => {
                return None;
            },
        };
        let taken = self.converter.take();
        let mut converter = match taken {
            Some(converter) => converter,
            None => {
                return None;
            },
        };
        let before = converter.state();
        let notice = converter.observe(&event);
        let after = converter.state();
        self.converter = Some(converter);
        self.end_of_request(before, after);
        match notice {
            Some(n) => {
                self.conversion_progress = Some(n);
                Some(ConversionMode::Simulation)
            },
            None => {
                self.conversion_progress = Some(event);
                None
            },
        }
    }

    /// Takes the failure of a backend that could not start. Without a
    /// request under way nothing changes. Else the request falls back: the
    /// notice becomes the last report, and the simulation is returned as the
    /// backend to run; or, where nothing is left to fall back to, the running
    /// request has failed and the tab is the format selection.
    pub fn backend_failed(&mut self, reason: &str) -> (r: Option<ConversionMode>)
        ensures
            final(self)@ == failed_view(old(self)@, reason@).0,
            r == failed_view(old(self)@, reason@).1,
    {
        let taken = self.converter.take();
        let mut converter = match taken {
            Some(converter) => converter,
            None => {
                return None;
            },
        };
        let before = converter.state();
        let notice = converter.backend_failed(reason);
        let after = converter.state();
        self.converter = Some(converter);
        self.end_of_request(before, after);
        match notice {
            Some(n) => {
                self.conversion_progress = Some(n);
                Some(ConversionMode::Simulation)
            },
            None => None,
        }
    }

    /// Handles a key, and says what the caller does then.
    pub fn handle_key(&mut self, key: Key) -> (r: KeyAction)
        ensures
            final(self)@ == key_view(old(self)@, key).0,
            r == key_view(old(self)@, key).1,
    {
        match key {
            Key::Char(c) => {
                if c == 'q' {
                    self.quit();
                } else if c == 'p' {
                    self.toggle_popup();
                } else if c == 'n' {
                    match self.current_tab {
                        AppTab::Complete => {
                            self.reset();
                        },
                        _ => {},
                    }
                }
                KeyAction::Nothing
            },
            Key::Down => {
                match self.current_tab {
                    AppTab::FileBrowser => {
                        self.file_browser.next();
                    },
                    AppTab::FormatSelection => {
                        self.next_format();
                    },
                    _ => {},
                }
                KeyAction::Nothing
            },
            Key::Up => {
                match self.current_tab {
                    AppTab::FileBrowser => {
                        self.file_browser.previous();
                    },
                    AppTab::FormatSelection => {
                        self.previous_format();
                    },
                    _ => {},
                }
                KeyAction::Nothing
            },
            Key::Right | Key::Tab => {
                self.next_tab();
                KeyAction::Nothing
            },
            Key::Left => {
                self.previous_tab();
                KeyAction::Nothing
            },
            Key::Enter => {
                match self.current_tab {
                    AppTab::FileBrowser => {
                        let kind = match self.file_browser.get_selected_file() {
                            Some(entry) => entry.kind,
                            None => {
                                return KeyAction::Nothing;
                            },
                        };
                        match kind {
                            EntryKind::Directory => KeyAction::OpenDirectory,
                            EntryKind::File => {
                                self.current_tab = AppTab::FormatSelection;
                                KeyAction::Nothing
                            },
                            EntryKind::Other => KeyAction::Nothing,
                        }
                    },
                    AppTab::FormatSelection => {
                        if self.file_browser.is_selected_file() {
                            KeyAction::StartConversion
                        } else {
                            KeyAction::Nothing
                        }
                    },
                    _ => KeyAction::Nothing,
                }
            },
            Key::Esc => {
                if self.show_popup {
                    self.show_popup = false;
                }
                KeyAction::Nothing
            },
            Key::Other => KeyAction::Nothing,
        }
    }
}

} // verus!

//! Container formats, video settings and their derived values.

use vstd::prelude::*;
use crate::paths::{
    file_stem_of, join, lemma_split_of_joined, name_extension, name_stem, opt_chars, parent_of,
    path_stem, std_join, std_parent,
};
use crate::ffmpeg::FFmpegError;
use crate::native_converter::NativeConverterError;
use crate::text::{
    all_ascii, ascii, ascii_bytes, ascii_lowercase, concat2, concat3, decimal, decimal_string,
    is_all_ascii, lemma_lowercase_is, lowercase_matches, str_eq,
};

verus! {

/// Target picture size.
#[derive(Debug, Clone, Copy, PartialEq, Eq, Structural)]
pub enum Resolution {
    Original,
    HD720p,
    HD1080p,
    UHD4K,
}

impl Resolution {
    /// The label shown to the operator.
    pub open spec fn label(self) -> Seq<char> {
        match self {
            Resolution::Original => "Original"@,
            Resolution::HD720p => "720p"@,
            Resolution::HD1080p => "1080p"@,
            Resolution::UHD4K => "4K"@,
        }
    }

    /// Width and height in pixels; `None` keeps the source's size.
    pub open spec fn pixels(self) -> Option<(u32, u32)> {
        match self {
            Resolution::Original => None,
            Resolution::HD720p => Some((1280u32, 720u32)),
            Resolution::HD1080p => Some((1920u32, 1080u32)),
            Resolution::UHD4K => Some((3840u32, 2160u32)),
        }
    }

    /// The next resolution in the cycle, wrapping after the last.
    pub open spec fn succ(self) -> Resolution {
        match self {
            Resolution::Original => Resolution::HD720p,
            Resolution::HD720p => Resolution::HD1080p,
            Resolution::HD1080p => Resolution::UHD4K,
            Resolution::UHD4K => Resolution::Original,
        }
    }

    /// The previous resolution in the cycle, wrapping before the first.
    pub open spec fn pred(self) -> Resolution {
        match self {
            Resolution::Original => Resolution::UHD4K,
            Resolution::HD720p => Resolution::Original,
            Resolution::HD1080p => Resolution::HD720p,
            Resolution::UHD4K => Resolution::HD1080p,
        }
    }

    pub fn as_str(&self) -> (r: &'static str)
        ensures
            r@ == self.label(),
    {
        match self {
            Resolution::Original => "Original",
            Resolution::HD720p => "720p",
            Resolution::HD1080p => "1080p",
            Resolution::UHD4K => "4K",
        }
    }

    pub fn dimensions(&self) -> (r: Option<(u32, u32)>)
        ensures
            r == self.pixels(),
    {
        match self {
            Resolution::Original => None,
            Resolution::HD720p => Some((1280, 720)),
            Resolution::HD1080p => Some((1920, 1080)),
            Resolution::UHD4K => Some((3840, 2160)),
        }
    }
}

/// Target video bitrate class.
#[derive(Debug, Clone, Copy, PartialEq, Eq, Structural)]
pub enum Bitrate {
    Auto,
    Low,
    Medium,
    High,
}

impl Bitrate {
    /// The label shown to the operator.
    pub open spec fn label(self) -> Seq<char> {
        match self {
            Bitrate::Auto => "Auto"@,
            Bitrate::Low => "Low"@,
            Bitrate::Medium => "Medium"@,
            Bitrate::High => "High"@,
        }
    }

    /// The bitrate table, in kbit/s. `Auto` is 0: the backend decides.
    /// A class with `Resolution::Original` has no row and gets 6000.
    pub open spec fn kbps(self, resolution: Resolution) -> u32 {
        match (self, resolution) {
            (Bitrate::Auto, _) => 0u32,
            (Bitrate::Low, Resolution::HD720p) => 1500u32,
            (Bitrate::Medium, Resolution::HD720p) => 2500u32,
            (Bitrate::High, Resolution::HD720p) => 4000u32,
            (Bitrate::Low, Resolution::HD1080p) => 3000u32,
            (Bitrate::Medium, Resolution::HD1080p) => 6000u32,
            (Bitrate::High, Resolution::HD1080p) => 8000u32,
            (Bitrate::Low, Resolution::UHD4K) => 8000u32,
            (Bitrate::Medium, Resolution::UHD4K) => 12000u32,
            (Bitrate::High, Resolution::UHD4K) => 18000u32,
            (_, Resolution::Original) => 6000u32,
        }
    }

    /// The next class in the cycle, wrapping after the last.
    pub open spec fn succ(self) -> Bitrate {
        match self {
            Bitrate::Auto => Bitrate::Low,
            Bitrate::Low => Bitrate::Medium,
            Bitrate::Medium => Bitrate::High,
            Bitrate::High => Bitrate::Auto,
        }
    }

    /// The previous class in the cycle, wrapping before the first.
    pub open spec fn pred(self) -> Bitrate {
        match self {
            Bitrate::Auto => Bitrate::High,
            Bitrate::Low => Bitrate::Auto,
            Bitrate::Medium => Bitrate::Low,
            Bitrate::High => Bitrate::Medium,
        }
    }

    pub fn as_str(&self) -> (r: &'static str)
        ensures
            r@ == self.label(),
    {
        match self {
            Bitrate::Auto => "Auto",
            Bitrate::Low => "Low",
            Bitrate::Medium => "Medium",
            Bitrate::High => "High",
        }
    }

    /// Looks the bitrate up in the table.
    pub fn value_kbps(&self, resolution: &Resolution) -> (r: u32)
        ensures
            r == self.kbps(*resolution),
            *self == Bitrate::Auto ==> r == 0,
            *self != Bitrate::Auto && *resolution == Resolution::Original ==> r == 6000,
    {
        match (self, resolution) {
            (Bitrate::Auto, _) => 0,
            (Bitrate::Low, Resolution::HD720p) => 1500,
            (Bitrate::Medium, Resolution::HD720p) => 2500,
            (Bitrate::High, Resolution::HD720p) => 4000,
            (Bitrate::Low, Resolution::HD1080p) => 3000,
            (Bitrate::Medium, Resolution::HD1080p) => 6000,
            (Bitrate::High, Resolution::HD1080p) => 8000,
            (Bitrate::Low, Resolution::UHD4K) => 8000,
            (Bitrate::Medium, Resolution::UHD4K) => 12000,
            (Bitrate::High, Resolution::UHD4K) => 18000,
            _ => 6000,
        }
    }
}

/// Target frame rate.
#[derive(Debug, Clone, Copy, PartialEq, Eq, Structural)]
pub enum FrameRate {
    Original,
    FPS24,
    FPS30,
    FPS60,
}

impl FrameRate {
    /// The label shown to the operator.
    pub open spec fn label(self) -> Seq<char> {
        match self {
            FrameRate::Original => "Original"@,
            FrameRate::FPS24 => "24 fps"@,
            FrameRate::FPS30 => "30 fps"@,
            FrameRate::FPS60 => "60 fps"@,
        }
    }

    /// Frames per second; `None` keeps the source's rate.
    pub open spec fn fps(self) -> Option<u32> {
        match self {
            FrameRate::Original => None,
            FrameRate::FPS24 => Some(24u32),
            FrameRate::FPS30 => Some(30u32),
            FrameRate::FPS60 => Some(60u32),
        }
    }

    /// The next rate in the cycle, wrapping after the last.
    pub open spec fn succ(self) -> FrameRate {
        match self {
            FrameRate::Original => FrameRate::FPS24,
            FrameRate::FPS24 => FrameRate::FPS30,
            FrameRate::FPS30 => FrameRate::FPS60,
            FrameRate::FPS60 => FrameRate::Original,
        }
    }

    /// The previous rate in the cycle, wrapping before the first.
    pub open spec fn pred(self) -> FrameRate {
        match self {
            FrameRate::Original => FrameRate::FPS60,
            FrameRate::FPS24 => FrameRate::Original,
            FrameRate::FPS30 => FrameRate::FPS24,
            FrameRate::FPS60 => FrameRate::FPS30,
        }
    }

    pub fn as_str(&self) -> (r: &'static str)
        ensures
            r@ == self.label(),
    {
        match self {
            FrameRate::Original => "Original",
            FrameRate::FPS24 => "24 fps",
            FrameRate::FPS30 => "30 fps",
            FrameRate::FPS60 => "60 fps",
        }
    }

    pub fn value(&self) -> (r: Option<u32>)
        ensures
            r == self.fps(),
    {
        match self {
            FrameRate::Original => None,
            FrameRate::FPS24 => Some(24),
            FrameRate::FPS30 => Some(30),
            FrameRate::FPS60 => Some(60),
        }
    }
}

/// The settings a conversion runs with.
#[derive(Debug, Clone, Copy, PartialEq, Eq, Structural)]
pub struct VideoSettings {
    pub resolution: Resolution,
    pub bitrate: Bitrate,
    pub frame_rate: FrameRate,
}

impl VideoSettings {
    /// The settings a run starts with: nothing is changed from the source.
    pub open spec fn initial() -> VideoSettings {
        VideoSettings {
            resolution: Resolution::Original,
            bitrate: Bitrate::Auto,
            frame_rate: FrameRate::Original,
        }
    }
}

impl Default for VideoSettings {
    fn default() -> (r: VideoSettings)
        ensures
            r == VideoSettings::initial(),
    {
        VideoSettings {
            resolution: Resolution::Original,
            bitrate: Bitrate::Auto,
            frame_rate: FrameRate::Original,
        }
    }
}

/// Container format of the output file.
#[derive(Debug, Clone, Copy, PartialEq, Eq, Structural)]
pub enum VideoFormat {
    MP4,
    MKV,
    AVI,
    MOV,
    WEBM,
}

/// The lowercase form of a string as `str::to_lowercase` computes it.
pub uninterp spec fn unicode_lowercase(s: Seq<char>) -> Seq<char>;

/// The lowercase form by which an extension is looked up: for a text of
/// ASCII characters its ASCII lowercase form, letter by letter; for any
/// other text what `str::to_lowercase` gives.
pub open spec fn lowercase_form(s: Seq<char>) -> Seq<char> {
    if all_ascii(s) {
        ascii_lowercase(s)
    } else {
        unicode_lowercase(s)
    }
}

/// Calls `str::to_lowercase`. The contract only names the result: the
/// Unicode lowercase mapping is not written out here.
#[verifier::external_body]
fn to_lowercase(s: &str) -> (r: String)
    ensures
        r@ == unicode_lowercase(s@),
{
    s.to_lowercase()
}

impl VideoFormat {
    /// The canonical label.
    pub open spec fn label(self) -> Seq<char> {
        match self {
            VideoFormat::MP4 => "MP4"@,
            VideoFormat::MKV => "MKV"@,
            VideoFormat::AVI => "AVI"@,
            VideoFormat::MOV => "MOV"@,
            VideoFormat::WEBM => "WEBM"@,
        }
    }

    /// The file extension, without the dot.
    pub open spec fn ext(self) -> Seq<char> {
        match self {
            VideoFormat::MP4 => "mp4"@,
            VideoFormat::MKV => "mkv"@,
            VideoFormat::AVI => "avi"@,
            VideoFormat::MOV => "mov"@,
            VideoFormat::WEBM => "webm"@,
        }
    }

    /// A sentence about the format.
    pub open spec fn about(self) -> Seq<char> {
        match self {
            VideoFormat::MP4 => "MPEG-4 Part 14 - Widely supported format with good compression"@,
            VideoFormat::MKV => "Matroska Video - Container format that can hold many codecs"@,
            VideoFormat::AVI => "Audio Video Interleave - Microsoft's container format"@,
            VideoFormat::MOV => "QuickTime File Format - Apple's container format"@,
            VideoFormat::WEBM => "WebM - Open, royalty-free format designed for the web"@,
        }
    }

    /// The format whose extension is exactly `s`, if there is one.
    pub open spec fn of_lowercase(s: Seq<char>) -> Option<VideoFormat> {
        if s == "mp4"@ {
            Some(VideoFormat::MP4)
        } else if s == "mkv"@ {
            Some(VideoFormat::MKV)
        } else if s == "avi"@ {
            Some(VideoFormat::AVI)
        } else if s == "mov"@ {
            Some(VideoFormat::MOV)
        } else if s == "webm"@ {
            Some(VideoFormat::WEBM)
        } else {
            None
        }
    }

    pub fn as_str(&self) -> (r: &'static str)
        ensures
            r@ == self.label(),
    {
        match self {
            VideoFormat::MP4 => "MP4",
            VideoFormat::MKV => "MKV",
            VideoFormat::AVI => "AVI",
            VideoFormat::MOV => "MOV",
            VideoFormat::WEBM => "WEBM",
        }
    }

    pub fn extension(&self) -> (r: &'static str)
        ensures
            r@ == self.ext(),
    {
        match self {
            VideoFormat::MP4 => "mp4",
            VideoFormat::MKV => "mkv",
            VideoFormat::AVI => "avi",
            VideoFormat::MOV => "mov",
            VideoFormat::WEBM => "webm",
        }
    }

    pub fn description(&self) -> (r: &'static str)
        ensures
            r@ == self.about(),
    {
        match self {
            VideoFormat::MP4 => "MPEG-4 Part 14 - Widely supported format with good compression",
            VideoFormat::MKV => "Matroska Video - Container format that can hold many codecs",
            VideoFormat::AVI => "Audio Video Interleave - Microsoft's container format",
            VideoFormat::MOV => "QuickTime File Format - Apple's container format",
            VideoFormat::WEBM => "WebM - Open, royalty-free format designed for the web",
        }
    }

    /// The format for an extension that is already in lowercase: `Some` exactly
    /// for the five extensions, `None` for every other string.
    pub fn from_lowercase_extension(ext: &str) -> (r: Option<VideoFormat>)
        ensures
            r == VideoFormat::of_lowercase(ext@),
    {
        if str_eq(ext, "mp4") {
            Some(VideoFormat::MP4)
        } else if str_eq(ext, "mkv") {
            Some(VideoFormat::MKV)
        } else if str_eq(ext, "avi") {
            Some(VideoFormat::AVI)
        } else if str_eq(ext, "mov") {
            Some(VideoFormat::MOV)
        } else if str_eq(ext, "webm") {
            Some(VideoFormat::WEBM)
        } else {
            None
        }
    }

    /// The format for an extension of ASCII characters in any letter case.
    fn from_ascii_extension(ext: &str) -> (r: Option<VideoFormat>)
        requires
            all_ascii(ext@),
        ensures
            r == VideoFormat::of_lowercase(ascii_lowercase(ext@)),
    {
        proof {
            reveal_strlit("mp4");
            reveal_strlit("mkv");
            reveal_strlit("avi");
            reveal_strlit("mov");
            reveal_strlit("webm");
            lemma_lowercase_is(ext@, "mp4"@);
            lemma_lowercase_is(ext@, "mkv"@);
            lemma_lowercase_is(ext@, "avi"@);
            lemma_lowercase_is(ext@, "mov"@);
            lemma_lowercase_is(ext@, "webm"@);
        }
        let bytes = ascii_bytes(ext);
        if lowercase_matches(bytes, ascii_bytes("mp4")) {
            Some(VideoFormat::MP4)
        } else if lowercase_matches(bytes, ascii_bytes("mkv")) {
            Some(VideoFormat::MKV)
        } else if lowercase_matches(bytes, ascii_bytes("avi")) {
            Some(VideoFormat::AVI)
        } else if lowercase_matches(bytes, ascii_bytes("mov")) {
            Some(VideoFormat::MOV)
        } else if lowercase_matches(bytes, ascii_bytes("webm")) {
            Some(VideoFormat::WEBM)
        } else {
            None
        }
    }

    /// The format for an extension in any letter case; an unknown one gives
    /// `None`. An extension of ASCII characters is compared letter by letter
    /// without regard to case; any other is lowercased first.
    pub fn from_extension(ext: &str) -> (r: Option<VideoFormat>)
        ensures
            r == VideoFormat::of_lowercase(lowercase_form(ext@)),
    {
        if is_all_ascii(ext) {
            VideoFormat::from_ascii_extension(ext)
        } else {
            let lower = to_lowercase(ext);
            VideoFormat::from_lowercase_extension(lower.as_str())
        }
    }
}

/// One report of a conversion's state, as a backend hands it to the consumer.
#[derive(Debug, Clone)]
pub struct ConversionProgress {
    pub percent: u8,
    pub current_step: String,
    pub source_file: String,
    pub target_format: VideoFormat,
    pub output_file: String,
    pub is_complete: bool,
    pub has_error: bool,
    pub error_message: Option<String>,
    pub video_settings: Option<VideoSettings>,
}

/// What a progress report says, with its texts as character sequences.
pub ghost struct ProgressView {
    pub percent: u8,
    pub step: Seq<char>,
    pub source: Seq<char>,
    pub format: VideoFormat,
    pub output: Seq<char>,
    pub is_complete: bool,
    pub has_error: bool,
    pub error: Option<Seq<char>>,
    pub settings: Option<VideoSettings>,
}

impl View for ConversionProgress {
    type V = ProgressView;

    open spec fn view(&self) -> ProgressView {
        ProgressView {
            percent: self.percent,
            step: self.current_step@,
            source: self.source_file@,
            format: self.target_format,
            output: self.output_file@,
            is_complete: self.is_complete,
            has_error: self.has_error,
            error: opt_chars(self.error_message),
            settings: self.video_settings,
        }
    }
}

/// The reports of a list, in order, each by its view.
pub open spec fn trace(events: Seq<ConversionProgress>) -> Seq<ProgressView> {
    Seq::new(events.len(), |i: int| events[i]@)
}

/// Appending a report to a list appends its view to the trace.
pub proof fn lemma_trace_push(events: Seq<ConversionProgress>, e: ConversionProgress)
    ensures
        trace(events.push(e)) == trace(events).push(e@),
{
    assert(trace(events.push(e)) =~= trace(events).push(e@));
}

/// A report of a conversion that goes on.
pub open spec fn progress_report(
    source: Seq<char>,
    format: VideoFormat,
    output: Seq<char>,
    percent: u8,
    step: Seq<char>,
) -> ProgressView {
    ProgressView {
        percent,
        step,
        source,
        format,
        output,
        is_complete: false,
        has_error: false,
        error: None,
        settings: None,
    }
}

/// The report that ends a conversion with success.
pub open spec fn completion_report(
    source: Seq<char>,
    format: VideoFormat,
    output: Seq<char>,
) -> ProgressView {
    ProgressView {
        percent: 100,
        step: "Conversion complete!"@,
        source,
        format,
        output,
        is_complete: true,
        has_error: false,
        error: None,
        settings: None,
    }
}

/// A report of an error. It does not carry the completion flag.
pub open spec fn failure_report(
    source: Seq<char>,
    format: VideoFormat,
    output: Seq<char>,
    percent: u8,
    step: Seq<char>,
    error: Seq<char>,
) -> ProgressView {
    ProgressView {
        percent,
        step,
        source,
        format,
        output,
        is_complete: false,
        has_error: true,
        error: Some(error),
        settings: None,
    }
}

/// Whether a list of reports never falls in percent, from `floor` on.
pub open spec fn rising_from(floor: u8, events: Seq<ProgressView>) -> bool {
    &&& forall|i: int| 0 <= i < events.len() ==> floor <= (#[trigger] events[i]).percent
    &&& forall|i: int, j: int|
        0 <= i <= j < events.len() ==> (#[trigger] events[i]).percent <= (#[trigger] events[j]).percent
}

/// Whether a list of reports never falls in percent.
pub open spec fn non_decreasing(events: Seq<ProgressView>) -> bool {
    forall|i: int, j: int|
        0 <= i <= j < events.len() ==> (#[trigger] events[i]).percent <= (#[trigger] events[j]).percent
}

/// Whether a list of reports ends with completion: its last report carries
/// the completion flag at 100 percent, no other carries it, and none reports
/// an error.
pub open spec fn ends_complete(events: Seq<ProgressView>) -> bool {
    &&& events.len() > 0
    &&& events.last().percent == 100
    &&& forall|i: int| 0 <= i < events.len() ==> ((#[trigger] events[i]).is_complete <==> i == events.len() - 1)
    &&& forall|i: int| 0 <= i < events.len() ==> !(#[trigger] events[i]).has_error
}

/// Whether a list of reports ends with an error: its last report, and no
/// other, reports an error, and none carries the completion flag.
pub open spec fn ends_in_error(events: Seq<ProgressView>) -> bool {
    &&& events.len() > 0
    &&& forall|i: int| 0 <= i < events.len() ==> ((#[trigger] events[i]).has_error <==> i == events.len() - 1)
    &&& forall|i: int| 0 <= i < events.len() ==> !(#[trigger] events[i]).is_complete
}

/// Whether no report of a list is an end: none carries the completion flag
/// and none reports an error.
pub open spec fn still_running(events: Seq<ProgressView>) -> bool {
    forall|i: int| 0 <= i < events.len() ==> !(#[trigger] events[i]).is_complete && !events[i].has_error
}

/// The file name of the output: the source's stem, a dot, the format's extension.
pub open spec fn output_name(stem: Seq<char>, format: VideoFormat) -> Seq<char> {
    stem + seq!['.'] + format.ext()
}

/// The directory of a source: its parent, or the empty path where it has none.
pub open spec fn source_dir(source: Seq<char>) -> Seq<char> {
    match std_parent(source) {
        Some(p) => p,
        None => Seq::<char>::empty(),
    }
}

/// The stem of a source, or the empty text where it has no file name.
pub open spec fn source_stem(source: Seq<char>) -> Seq<char> {
    match path_stem(source) {
        Some(t) => t,
        None => Seq::<char>::empty(),
    }
}

/// The path of the output: the file name made of the source's stem and the
/// format's extension, joined to the source's directory.
pub open spec fn output_path(source: Seq<char>, format: VideoFormat) -> Seq<char> {
    std_join(source_dir(source), output_name(source_stem(source), format))
}

/// Builds the output's file name from a stem.
pub fn output_file_name(stem: &str, target_format: VideoFormat) -> (r: String)
    ensures
        r@ == output_name(stem@, target_format),
{
    proof {
        reveal_strlit(".");
    }
    let r = concat3(stem, ".", target_format.extension());
    assert("."@ =~= seq!['.']);
    r
}

/// The backends, from the last resort to the preferred one.
#[derive(Debug, Clone, Copy, PartialEq, Eq, Structural)]
pub enum ConversionMode {
    /// The stand-in that only reports: it needs nothing and cannot fail.
    Simulation,
    /// The external tool.
    FFmpeg,
    /// The built-in backend.
    NativeFFmpeg,
}

/// The two availability probes.
#[derive(Debug, Clone, Copy, PartialEq, Eq, Structural)]
pub enum ProbeKind {
    /// Is the built-in backend usable?
    Native,
    /// Is the external tool on the host?
    ExternalTool,
}

/// What the probes of one conversion request have found so far. `None`
/// stands for a probe that was not made.
#[derive(Debug, Clone, Copy, PartialEq, Eq, Structural)]
pub struct ProbeResults {
    pub native: Option<bool>,
    pub external: Option<bool>,
}

/// What to do next while a backend is chosen.
#[derive(Debug, Clone, Copy, PartialEq, Eq, Structural)]
pub enum SelectionStep {
    /// Make this probe and record what it finds.
    Probe(ProbeKind),
    /// The choice is made.
    Selected(ConversionMode),
}

/// The selection policy: the built-in backend if it is available; else the
/// external tool if that is; else the simulation. A probe is asked for only
/// when the choice hangs on it.
pub open spec fn selection(results: ProbeResults) -> SelectionStep {
    match results.native {
        None => SelectionStep::Probe(ProbeKind::Native),
        Some(true) => SelectionStep::Selected(ConversionMode::NativeFFmpeg),
        Some(false) => match results.external {
            None => SelectionStep::Probe(ProbeKind::ExternalTool),
            Some(true) => SelectionStep::Selected(ConversionMode::FFmpeg),
            Some(false) => SelectionStep::Selected(ConversionMode::Simulation),
        },
    }
}

impl ProbeResults {
    /// No probe was made yet.
    pub fn new() -> (r: ProbeResults)
        ensures
            r == (ProbeResults { native: None, external: None }),
    {
        ProbeResults { native: None, external: None }
    }

    /// Records what the probe of the built-in backend found. A probe that
    /// failed counts as "not available".
    pub fn record_native(&mut self, found: Result<bool, NativeConverterError>)
        ensures
            final(self).external == old(self).external,
            final(self).native == Some(found matches Ok(available) && available),
    {
        let available = match found {
            Ok(a) => a,
            Err(_) => false,
        };
        self.native = Some(available);
    }

    /// Records what the probe of the external tool found. A probe that
    /// failed counts as "not available".
    pub fn record_external(&mut self, found: Result<bool, FFmpegError>)
        ensures
            final(self).native == old(self).native,
            final(self).external == Some(found matches Ok(available) && available),
    {
        let available = match found {
            Ok(a) => a,
            Err(_) => false,
        };
        self.external = Some(available);
    }

    /// Says what to do next: make a probe, or run the backend chosen. The
    /// external tool is never probed once the built-in backend is known to
    /// be available, and with both probes negative the simulation is chosen.
    pub fn next_step(&self) -> (r: SelectionStep)
        ensures
            r == selection(*self),
            self.native == Some(true) ==> r == SelectionStep::Selected(ConversionMode::NativeFFmpeg),
            r == SelectionStep::Probe(ProbeKind::ExternalTool) <==> self.native == Some(false)
                && self.external is None,
            self.native == Some(false) && self.external == Some(false) ==> r
                == SelectionStep::Selected(ConversionMode::Simulation),
    {
        match self.native {
            None => SelectionStep::Probe(ProbeKind::Native),
            Some(true) => SelectionStep::Selected(ConversionMode::NativeFFmpeg),
            Some(false) => match self.external {
                None => SelectionStep::Probe(ProbeKind::ExternalTool),
                Some(true) => SelectionStep::Selected(ConversionMode::FFmpeg),
                Some(false) => SelectionStep::Selected(ConversionMode::Simulation),
            },
        }
    }
}

/// One report of the simulation and the pause that follows it.
#[derive(Debug)]
pub struct SimulatedStep {
    pub progress: ConversionProgress,
    pub pause_ms: u64,
}

/// The text of the simulation's report on a frame.
pub open spec fn frame_step_text(frame: u8) -> Seq<char> {
    "Converting video frame "@ + decimal(frame as nat) + "/100..."@
}

/// The `i`-th step of the simulation: its report and the milliseconds to
/// pause after it. The phases are: analyze, extract audio, one step for each
/// frame from 20 to 80, mux, finalize, complete.
pub open spec fn simulated_step(
    source: Seq<char>,
    format: VideoFormat,
    output: Seq<char>,
    i: int,
) -> (ProgressView, u64) {
    if i == 0 {
        (progress_report(source, format, output, 0, "Analyzing video file..."@), 500u64)
    } else if i == 1 {
        (progress_report(source, format, output, 10, "Extracting audio stream..."@), 1000u64)
    } else if i <= 62 {
        (
            progress_report(source, format, output, (i + 18) as u8, frame_step_text((i + 18) as u8)),
            100u64,
        )
    } else if i == 63 {
        (progress_report(source, format, output, 90, "Muxing audio and video streams..."@), 500u64)
    } else if i == 64 {
        (progress_report(source, format, output, 100, "Finalizing output file..."@), 300u64)
    } else {
        (completion_report(source, format, output), 0u64)
    }
}

/// The steps of the simulation, in order: 66 of them.
pub open spec fn simulated_steps(
    source: Seq<char>,
    format: VideoFormat,
    output: Seq<char>,
) -> Seq<(ProgressView, u64)> {
    Seq::new(66, |i: int| simulated_step(source, format, output, i))
}

/// The steps of a list, each as its report's view and its pause.
pub open spec fn steps_view(steps: Seq<SimulatedStep>) -> Seq<(ProgressView, u64)> {
    Seq::new(steps.len(), |i: int| (steps[i].progress@, steps[i].pause_ms))
}

/// Where a conversion request stands.
#[derive(Debug, Clone, Copy, PartialEq, Eq, Structural)]
pub enum ConverterState {
    /// No request was made.
    Idle,
    /// This backend is at work.
    Running(ConversionMode),
    /// A backend reported completion.
    Succeeded,
    /// The request ended in failure: there was no source, or the last
    /// backend failed.
    Failed,
}

/// The orchestrator of one conversion request: it starts with the backend
/// chosen, watches its reports, and falls back to the simulation when the
/// backend fails.
#[derive(Debug)]
pub struct VideoConverter {
    mode: ConversionMode,
    state: ConverterState,
    source_file: String,
    target_format: VideoFormat,
    output_file: String,
}

/// The orchestrator's state, with its texts as character sequences.
pub ghost struct ConverterView {
    pub mode: ConversionMode,
    pub state: ConverterState,
    pub source: Seq<char>,
    pub format: VideoFormat,
    pub output: Seq<char>,
}

impl View for VideoConverter {
    type V = ConverterView;

    closed spec fn view(&self) -> ConverterView {
        ConverterView {
            mode: self.mode,
            state: self.state,
            source: self.source_file@,
            format: self.target_format,
            output: self.output_file@,
        }
    }
}

/// The first report of a request: nothing is done yet, and the settings in
/// effect are the initial ones.
pub open spec fn initial_report(
    source: Seq<char>,
    format: VideoFormat,
    output: Seq<char>,
) -> ProgressView {
    ProgressView {
        percent: 0,
        step: "Initializing conversion..."@,
        source,
        format,
        output,
        is_complete: false,
        has_error: false,
        error: None,
        settings: Some(VideoSettings::initial()),
    }
}

/// The report of a request whose source file is not there.
pub open spec fn invalid_input_report(
    source: Seq<char>,
    format: VideoFormat,
    output: Seq<char>,
) -> ProgressView {
    failure_report(source, format, output, 0, "Invalid input file"@, "Invalid input file"@)
}

/// The name by which a backend is called in a fallback notice.
pub open spec fn backend_label(mode: ConversionMode) -> Seq<char> {
    match mode {
        ConversionMode::NativeFFmpeg => "Native FFmpeg error: "@,
        ConversionMode::FFmpeg => "FFmpeg error: "@,
        ConversionMode::Simulation => "Simulation error: "@,
    }
}

/// The notice that a backend failed and the simulation takes over. The
/// percent starts again at zero.
pub open spec fn fallback_notice(
    mode: ConversionMode,
    source: Seq<char>,
    format: VideoFormat,
    output: Seq<char>,
    reason: Seq<char>,
) -> ProgressView {
    failure_report(
        source,
        format,
        output,
        0,
        backend_label(mode) + reason + ", falling back to simulation"@,
        backend_label(mode) + reason,
    )
}

/// The request after a backend failed, and the notice to hand on if another
/// backend takes over. After the built-in backend or the external tool the
/// simulation runs; after the simulation nothing is left. A request that is
/// not running stays as it is.
pub open spec fn after_failure(c: ConverterView, reason: Seq<char>) -> (
    ConverterView,
    Option<ProgressView>,
) {
    match c.state {
        ConverterState::Running(ConversionMode::Simulation) => (
            ConverterView { state: ConverterState::Failed, ..c },
            None,
        ),
        ConverterState::Running(mode) => (
            ConverterView { state: ConverterState::Running(ConversionMode::Simulation), ..c },
            Some(fallback_notice(mode, c.source, c.format, c.output, reason)),
        ),
        _ => (c, None),
    }
}

/// The reason that an error report gives: its error message, or its step
/// text where it has none.
pub open spec fn failure_reason(event: ProgressView) -> Seq<char> {
    match event.error {
        Some(e) => e,
        None => event.step,
    }
}

/// The request after a backend's report was seen. While a backend runs, a
/// report of completion ends the request well, and an error report counts as
/// the backend's failure. Reports that come when no backend runs change
/// nothing.
pub open spec fn after_report(c: ConverterView, event: ProgressView) -> (
    ConverterView,
    Option<ProgressView>,
) {
    match c.state {
        ConverterState::Running(_) => if event.is_complete {
            (ConverterView { state: ConverterState::Succeeded, ..c }, None)
        } else if event.has_error {
            after_failure(c, failure_reason(event))
        } else {
            (c, None)
        },
        _ => (c, None),
    }
}

impl VideoConverter {
    /// An orchestrator for the backend chosen, with no request made.
    pub fn new(mode: ConversionMode) -> (r: VideoConverter)
        ensures
            r@ == (ConverterView {
                mode,
                state: ConverterState::Idle,
                source: Seq::<char>::empty(),
                format: VideoFormat::MP4,
                output: Seq::<char>::empty(),
            }),
    {
        VideoConverter {
            mode,
            state: ConverterState::Idle,
            source_file: String::new(),
            target_format: VideoFormat::MP4,
            output_file: String::new(),
        }
    }

    /// Where the request stands.
    pub fn state(&self) -> (r: ConverterState)
        ensures
            r == self@.state,
    {
        self.state
    }

    /// The backend that the request started with.
    pub fn mode(&self) -> (r: ConversionMode)
        ensures
            r == self@.mode,
    {
        self.mode
    }

    /// The path of the output file.
    pub fn output_file(&self) -> (r: &str)
        ensures
            r@ == self@.output,
    {
        self.output_file.as_str()
    }

    /// Derives the output path from the source path and the target format:
    /// the same directory and stem, with the format's extension.
    pub fn generate_output_path(source_file: &str, target_format: VideoFormat) -> (r: String)
        ensures
            r@ == output_path(source_file@, target_format),
    {
        let parent = match parent_of(source_file) {
            Some(p) => p,
            None => String::new(),
        };
        let stem = match file_stem_of(source_file) {
            Some(t) => t,
            None => String::new(),
        };
        let name = output_file_name(stem.as_str(), target_format);
        join(parent.as_str(), name.as_str())
    }

    /// Appends one report to a list of reports.
    pub fn send_progress(
        events: &mut Vec<ConversionProgress>,
        percent: u8,
        step: String,
        source_file: &str,
        target_format: VideoFormat,
        output_file: &str,
        is_complete: bool,
        has_error: bool,
        error_message: Option<String>,
        video_settings: Option<VideoSettings>,
    )
        ensures
            trace(final(events)@) == trace(old(events)@).push(
                (ProgressView {
                    percent,
                    step: step@,
                    source: source_file@,
                    format: target_format,
                    output: output_file@,
                    is_complete,
                    has_error,
                    error: opt_chars(error_message),
                    settings: video_settings,
                }),
            ),
    {
        let event = ConversionProgress {
            percent,
            current_step: step,
            source_file: String::from_str(source_file),
            target_format,
            output_file: String::from_str(output_file),
            is_complete,
            has_error,
            error_message,
            video_settings,
        };
        proof {
            lemma_trace_push(events@, event);
        }
        events.push(event);
    }

    /// Takes a conversion request. The output path is derived from the
    /// source. Without a source file the request fails at once: the one
    /// report is the error, and no backend is to run. Else the request runs
    /// with the backend chosen, and the one report says that it starts.
    pub fn convert(
        &mut self,
        source_file: String,
        target_format: VideoFormat,
        source_exists: bool,
    ) -> (r: Vec<ConversionProgress>)
        ensures
            final(self)@ == (ConverterView {
                mode: old(self)@.mode,
                state: if source_exists {
                    ConverterState::Running(old(self)@.mode)
                } else {
                    ConverterState::Failed
                },
                source: source_file@,
                format: target_format,
                output: output_path(source_file@, target_format),
            }),
            source_exists ==> trace(r@) == seq![
                initial_report(
                    source_file@,
                    target_format,
                    output_path(source_file@, target_format),
                ),
            ],
            !source_exists ==> trace(r@) == seq![
                invalid_input_report(
                    source_file@,
                    target_format,
                    output_path(source_file@, target_format),
                ),
            ],
    {
        let output_file = Self::generate_output_path(source_file.as_str(), target_format);
        let mut events: Vec<ConversionProgress> = Vec::new();
        assert(trace(events@) =~= Seq::empty());
        if source_exists {
            Self::send_progress(
                &mut events,
                0,
                String::from_str("Initializing conversion..."),
                source_file.as_str(),
                target_format,
                output_file.as_str(),
                false,
                false,
                None,
                Some(VideoSettings::default()),
            );
            self.state = ConverterState::Running(self.mode);
            assert(trace(events@) =~= seq![
                initial_report(source_file@, target_format, output_file@),
            ]);
        } else {
            Self::send_progress(
                &mut events,
                0,
                String::from_str("Invalid input file"),
                source_file.as_str(),
                target_format,
                output_file.as_str(),
                false,
                true,
                Some(String::from_str("Invalid input file")),
                None,
            );
            self.state = ConverterState::Failed;
            assert(trace(events@) =~= seq![
                invalid_input_report(source_file@, target_format, output_file@),
            ]);
        }
        self.source_file = source_file;
        self.target_format = target_format;
        self.output_file = output_file;
        events
    }

    /// Lists the steps of the simulation for the request's files.
    pub fn simulate_conversion(&self) -> (r: Vec<SimulatedStep>)
        ensures
            steps_view(r@) == simulated_steps(self@.source, self@.format, self@.output),
    {
        simulation_steps(self.source_file.as_str(), self.target_format, self.output_file.as_str())
    }

    /// Takes the failure of the backend at work: one that could not start,
    /// or one that broke off. Returns the notice to hand on where the
    /// simulation takes over.
    pub fn backend_failed(&mut self, reason: &str) -> (r: Option<ConversionProgress>)
        ensures
            final(self)@ == after_failure(old(self)@, reason@).0,
            match r {
                Some(notice) => after_failure(old(self)@, reason@).1 == Some(notice@),
                None => after_failure(old(self)@, reason@).1 is None,
            },
    {
        let mode = match self.state {
            ConverterState::Running(mode) => mode,
            _ => {
                return None;
            },
        };
        let label = match mode {
            ConversionMode::Simulation => {
                self.state = ConverterState::Failed;
                return None;
            },
            ConversionMode::NativeFFmpeg => "Native FFmpeg error: ",
            ConversionMode::FFmpeg => "FFmpeg error: ",
        };
        let step = concat3(label, reason, ", falling back to simulation");
        let error = concat2(label, reason);
        let notice = ConversionProgress {
            percent: 0,
            current_step: step,
            source_file: String::from_str(self.source_file.as_str()),
            target_format: self.target_format,
            output_file: String::from_str(self.output_file.as_str()),
            is_complete: false,
            has_error: true,
            error_message: Some(error),
            video_settings: None,
        };
        self.state = ConverterState::Running(ConversionMode::Simulation);
        Some(notice)
    }

    /// Takes a report of the backend at work. Completion ends the request
    /// well; an error counts as the backend's failure. Returns the notice to
    /// hand on where the simulation takes over.
    pub fn observe(&mut self, event: &ConversionProgress) -> (r: Option<ConversionProgress>)
        ensures
            final(self)@ == after_report(old(self)@, event@).0,
            match r {
                Some(notice) => after_report(old(self)@, event@).1 == Some(notice@),
                None => after_report(old(self)@, event@).1 is None,
            },
    {
        match self.state {
            ConverterState::Running(_) => {
                if event.is_complete {
                    self.state = ConverterState::Succeeded;
                    None
                } else if event.has_error {
                    match &event.error_message {
                        Some(e) => self.backend_failed(e.as_str()),
                        None => self.backend_failed(event.current_step.as_str()),
                    }
                } else {
                    None
                }
            },
            _ => None,
        }
    }
}

/// Lists the steps of the simulation.
pub fn simulation_steps(source_file: &str, target_format: VideoFormat, output_file: &str) -> (r:
    Vec<SimulatedStep>)
    ensures
        steps_view(r@) == simulated_steps(source_file@, target_format, output_file@),
{
    let mut steps: Vec<SimulatedStep> = Vec::new();
    push_step(
        &mut steps,
        0,
        String::from_str("Analyzing video file..."),
        source_file,
        target_format,
        output_file,
        false,
        500,
    );
    push_step(
        &mut steps,
        10,
        String::from_str("Extracting audio stream..."),
        source_file,
        target_format,
        output_file,
        false,
        1000,
    );
    let mut frame: u8 = 20;
    while frame <= 80
        invariant
            20 <= frame <= 81,
            steps@.len() == frame - 18,
            forall|i: int|
                0 <= i < steps@.len() ==> #[trigger] steps_view(steps@)[i] == simulated_step(
                    source_file@,
                    target_format,
                    output_file@,
                    i,
                ),
        decreases 81 - frame,
    {
        let digits = decimal_string(frame as u128);
        let text = concat3("Converting video frame ", digits.as_str(), "/100...");
        push_step(&mut steps, frame, text, source_file, target_format, output_file, false, 100);
        frame = frame + 1;
    }
    push_step(
        &mut steps,
        90,
        String::from_str("Muxing audio and video streams..."),
        source_file,
        target_format,
        output_file,
        false,
        500,
    );
    push_step(
        &mut steps,
        100,
        String::from_str("Finalizing output file..."),
        source_file,
        target_format,
        output_file,
        false,
        300,
    );
    push_step(
        &mut steps,
        100,
        String::from_str("Conversion complete!"),
        source_file,
        target_format,
        output_file,
        true,
        0,
    );
    assert(steps_view(steps@) =~= simulated_steps(source_file@, target_format, output_file@));
    steps
}

/// Appends one step of the simulation.
fn push_step(
    steps: &mut Vec<SimulatedStep>,
    percent: u8,
    step: String,
    source_file: &str,
    target_format: VideoFormat,
    output_file: &str,
    is_complete: bool,
    pause_ms: u64,
)
    ensures
        final(steps)@.len() == old(steps)@.len() + 1,
        forall|i: int|
            0 <= i < old(steps)@.len() ==> #[trigger] steps_view(final(steps)@)[i] == steps_view(
                old(steps)@,
            )[i],
        steps_view(final(steps)@)[old(steps)@.len() as int] == (
            (ProgressView {
                percent,
                step: step@,
                source: source_file@,
                format: target_format,
                output: output_file@,
                is_complete,
                has_error: false,
                error: None,
                settings: None,
            }),
            pause_ms,
        ),
{
    let progress = ConversionProgress {
        percent,
        current_step: step,
        source_file: String::from_str(source_file),
        target_format,
        output_file: String::from_str(output_file),
        is_complete,
        has_error: false,
        error_message: None,
        video_settings: None,
    };
    steps.push(SimulatedStep { progress, pause_ms });
}

/// The five extensions are pairwise different, and none holds a dot.
pub proof fn lemma_extensions_distinct()
    ensures
        forall|f: VideoFormat, g: VideoFormat| f.ext() == g.ext() ==> f == g,
        forall|f: VideoFormat, i: int| 0 <= i < f.ext().len() ==> f.ext()[i] != '.',
        forall|f: VideoFormat| 3 <= #[trigger] f.ext().len() <= 4,
{
    reveal_strlit("mp4");
    reveal_strlit("mkv");
    reveal_strlit("avi");
    reveal_strlit("mov");
    reveal_strlit("webm");
    assert forall|f: VideoFormat, g: VideoFormat| f.ext() == g.ext() implies f == g by {
        if f != g {
            assert(f.ext()[1] != g.ext()[1] || f.ext().len() != g.ext().len());
        }
    }
}

/// Extension to format and back is the identity: each format is found again
/// from its own extension, and a string that maps to a format is that
/// format's extension.
pub proof fn lemma_extension_round_trip(f: VideoFormat)
    ensures
        VideoFormat::of_lowercase(f.ext()) == Some(f),
        forall|s: Seq<char>| VideoFormat::of_lowercase(s) == Some(f) ==> s == f.ext(),
{
    lemma_extensions_distinct();
    assert(VideoFormat::MP4.ext() == "mp4"@);
    assert(VideoFormat::MKV.ext() == "mkv"@);
    assert(VideoFormat::AVI.ext() == "avi"@);
    assert(VideoFormat::MOV.ext() == "mov"@);
    assert(VideoFormat::WEBM.ext() == "webm"@);
}

/// Looking an extension up does not depend on the case of its letters: a
/// text of ASCII characters maps to the format `f` exactly when its ASCII
/// lowercase form is `f`'s extension. So each format is found again from its
/// own extension, and from its label, which is the extension in capitals.
pub proof fn lemma_from_extension_case_insensitive(input: Seq<char>, f: VideoFormat)
    requires
        all_ascii(input),
    ensures
        VideoFormat::of_lowercase(lowercase_form(input)) == Some(f) <==> ascii_lowercase(input)
            == f.ext(),
        VideoFormat::of_lowercase(lowercase_form(f.ext())) == Some(f),
        VideoFormat::of_lowercase(lowercase_form(f.label())) == Some(f),
{
    lemma_extension_round_trip(f);
    reveal_strlit("mp4");
    reveal_strlit("mkv");
    reveal_strlit("avi");
    reveal_strlit("mov");
    reveal_strlit("webm");
    reveal_strlit("MP4");
    reveal_strlit("MKV");
    reveal_strlit("AVI");
    reveal_strlit("MOV");
    reveal_strlit("WEBM");
    assert(all_ascii(f.ext()));
    assert(all_ascii(f.label()));
    assert(ascii_lowercase(f.ext()) =~= f.ext());
    assert(ascii_lowercase(f.label()) =~= f.ext());
}

/// Where the lookup goes through `str::to_lowercase`, for a text that holds
/// a character beyond ASCII, the text maps to the format `f` exactly when
/// what that function gives is `f`'s extension.
pub proof fn lemma_from_extension_beyond_ascii(input: Seq<char>, f: VideoFormat)
    requires
        !all_ascii(input),
    ensures
        VideoFormat::of_lowercase(lowercase_form(input)) == Some(f) <==> unicode_lowercase(input)
            == f.ext(),
{
    lemma_extension_round_trip(f);
}

/// The output's file name has the format's extension and the stem it was
/// built from, for every stem that is not empty. (With an empty stem the name
/// is a dot and the extension, which counts as a name without extension.)
pub proof fn lemma_output_name_stem_and_extension(stem: Seq<char>, format: VideoFormat)
    requires
        stem.len() > 0,
    ensures
        name_extension(output_name(stem, format)) == Some(format.ext()),
        name_stem(output_name(stem, format)) == stem,
{
    lemma_extensions_distinct();
    lemma_split_of_joined(stem, format.ext());
}

/// The output of a source is put in the source's directory, under a file
/// name that has the source's stem and the format's extension. This holds of
/// every source whose stem is not empty.
pub proof fn lemma_output_path_keeps_stem(source: Seq<char>, format: VideoFormat)
    requires
        source_stem(source).len() > 0,
    ensures
        output_path(source, format) == std_join(
            source_dir(source),
            output_name(source_stem(source), format),
        ),
        name_stem(output_name(source_stem(source), format)) == source_stem(source),
        name_extension(output_name(source_stem(source), format)) == Some(format.ext()),
{
    lemma_output_name_stem_and_extension(source_stem(source), format);
}

/// The simulation's reports never fall in percent; they rise strictly from
/// frame to frame, from 20 to 80; the last report, and no other, carries the
/// completion flag, at 100 percent; and none reports an error.
pub proof fn lemma_simulation_trace(source: Seq<char>, format: VideoFormat, output: Seq<char>)
    ensures
        simulated_steps(source, format, output).len() == 66,
        forall|i: int, j: int|
            0 <= i <= j < 66 ==> (#[trigger] simulated_steps(source, format, output)[i]).0.percent
                <= (#[trigger] simulated_steps(source, format, output)[j]).0.percent,
        simulated_steps(source, format, output)[2].0.percent == 20,
        simulated_steps(source, format, output)[62].0.percent == 80,
        forall|i: int, j: int|
            2 <= i < j <= 62 ==> (#[trigger] simulated_steps(source, format, output)[i]).0.percent
                < (#[trigger] simulated_steps(source, format, output)[j]).0.percent,
        simulated_steps(source, format, output)[65].0 == completion_report(source, format, output),
        forall|i: int|
            0 <= i < 66 ==> ((#[trigger] simulated_steps(source, format, output)[i]).0.is_complete
                <==> i == 65),
        forall|i: int|
            0 <= i < 66 ==> !(#[trigger] simulated_steps(source, format, output)[i]).0.has_error,
{
}

/// The fallback ladder. A backend's failure leads to the simulation and to
/// nothing else; the simulation's failure ends the request; a request that
/// has ended stays ended, whatever is reported after it.
pub proof fn lemma_fallback_ladder(c: ConverterView, reason: Seq<char>, event: ProgressView)
    ensures
        after_failure(c, reason).0.state matches ConverterState::Running(next) ==> next
            == ConversionMode::Simulation,
        c.state == ConverterState::Running(ConversionMode::NativeFFmpeg) || c.state
            == ConverterState::Running(ConversionMode::FFmpeg) ==> after_failure(c, reason).0.state
            == ConverterState::Running(ConversionMode::Simulation) && after_failure(c, reason).1
            is Some,
        c.state == ConverterState::Running(ConversionMode::Simulation) ==> after_failure(
            c,
            reason,
        ).0.state == ConverterState::Failed,
        c.state == ConverterState::Succeeded || c.state == ConverterState::Failed || c.state
            == ConverterState::Idle ==> after_report(c, event).0 == c && after_failure(c, reason).0
            == c,
        after_report(c, event).0.state == ConverterState::Succeeded ==> c.state
            == ConverterState::Succeeded || event.is_complete,
{
}

/// The reports of the simulation, in order.
pub open spec fn simulated_trace(
    source: Seq<char>,
    format: VideoFormat,
    output: Seq<char>,
) -> Seq<ProgressView> {
    Seq::new(66, |i: int| simulated_step(source, format, output, i).0)
}

/// The request after it has seen a list of reports, one after the other.
pub open spec fn watched(c: ConverterView, events: Seq<ProgressView>) -> ConverterView
    decreases events.len(),
{
    if events.len() == 0 {
        c
    } else {
        after_report(watched(c, events.drop_last()), events.last()).0
    }
}

/// A request is not moved by reports that are no end.
pub proof fn lemma_watched_still_running(c: ConverterView, events: Seq<ProgressView>)
    requires
        still_running(events),
    ensures
        watched(c, events) == c,
    decreases events.len(),
{
    if events.len() > 0 {
        assert forall|i: int| 0 <= i < events.drop_last().len() implies !(
        #[trigger] events.drop_last()[i]).is_complete && !events.drop_last()[i].has_error by {
            assert(events.drop_last()[i] == events[i]);
        }
        lemma_watched_still_running(c, events.drop_last());
        assert(!events.last().is_complete && !events.last().has_error);
    }
}

/// How a backend's run moves the request that watches it. A run that ends
/// with completion ends the request well. A run that ends with an error
/// hands the request to the simulation, or fails it where the simulation
/// itself was running. A run that has not ended leaves the request as it is.
pub proof fn lemma_watched_run(c: ConverterView, mode: ConversionMode, events: Seq<ProgressView>)
    requires
        c.state == ConverterState::Running(mode),
    ensures
        still_running(events) ==> watched(c, events) == c,
        ends_complete(events) ==> watched(c, events).state == ConverterState::Succeeded,
        ends_in_error(events) ==> watched(c, events).state == (if mode
            == ConversionMode::Simulation {
            ConverterState::Failed
        } else {
            ConverterState::Running(ConversionMode::Simulation)
        }),
{
    if still_running(events) {
        lemma_watched_still_running(c, events);
    }
    if ends_complete(events) || ends_in_error(events) {
        let head = events.drop_last();
        assert forall|i: int| 0 <= i < head.len() implies !(#[trigger] head[i]).is_complete
            && !head[i].has_error by {
            assert(head[i] == events[i]);
        }
        lemma_watched_still_running(c, head);
        assert(events.last() == events[events.len() - 1]);
    }
}

/// Whether some report of a list carries the completion flag.
pub open spec fn reports_completion(events: Seq<ProgressView>) -> bool {
    exists|i: int| 0 <= i < events.len() && (#[trigger] events[i]).is_complete
}

/// A request that sees a report of completion while its backend runs ends
/// well, whatever is reported after it. This holds of every list of reports
/// in which an error report, if there is one, is the last.
pub proof fn lemma_watched_completion(
    c: ConverterView,
    mode: ConversionMode,
    events: Seq<ProgressView>,
)
    requires
        c.state == ConverterState::Running(mode),
        forall|i: int| 0 <= i < events.len() && (#[trigger] events[i]).has_error ==> i == events.len() - 1,
        reports_completion(events),
    ensures
        watched(c, events).state == ConverterState::Succeeded,
    decreases events.len(),
{
    let head = events.drop_last();
    assert forall|i: int| 0 <= i < head.len() implies (#[trigger] head[i]) == events[i] by {}
    if reports_completion(head) {
        lemma_watched_completion(c, mode, head);
    } else {
        let k = choose|i: int| 0 <= i < events.len() && (#[trigger] events[i]).is_complete;
        if k < head.len() {
            assert(head[k].is_complete);
        }
        assert(events.last().is_complete);
        assert forall|i: int| 0 <= i < head.len() implies !(#[trigger] head[i]).is_complete
            && !head[i].has_error by {
            if head[i].is_complete {
                assert(reports_completion(head));
            }
        }
        lemma_watched_still_running(c, head);
    }
}

/// The simulation cannot fail: its reports end with completion, so a request
/// that runs the simulation and sees its reports ends well.
pub proof fn lemma_simulation_succeeds(c: ConverterView)
    requires
        c.state == ConverterState::Running(ConversionMode::Simulation),
    ensures
        non_decreasing(simulated_trace(c.source, c.format, c.output)),
        ends_complete(simulated_trace(c.source, c.format, c.output)),
        watched(c, simulated_trace(c.source, c.format, c.output)).state
            == ConverterState::Succeeded,
{
    lemma_simulation_trace(c.source, c.format, c.output);
    let t = simulated_trace(c.source, c.format, c.output);
    assert forall|i: int| 0 <= i < t.len() implies (#[trigger] t[i]) == simulated_steps(
        c.source,
        c.format,
        c.output,
    )[i].0 by {}
    assert(t.last() == t[65]);
    lemma_watched_run(c, ConversionMode::Simulation, t);
}

} // verus!

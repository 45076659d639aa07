use std::path::Path;

use video_converter::converter::{
    output_file_name, simulation_steps, Bitrate, ConversionMode, ConversionProgress,
    ConverterState, FrameRate, ProbeKind, ProbeResults, Resolution, SelectionStep, VideoConverter,
    VideoFormat, VideoSettings,
};
use video_converter::ffmpeg::FFmpegError;
use video_converter::native_converter::NativeConverterError;

const FORMATS: [VideoFormat; 5] =
    [VideoFormat::MP4, VideoFormat::MKV, VideoFormat::AVI, VideoFormat::MOV, VideoFormat::WEBM];

fn join(dir: &str, name: &str) -> String {
    Path::new(dir).join(name).to_string_lossy().into_owned()
}

#[test]
fn output_path_keeps_directory_and_stem_and_takes_the_extension() {
    let sources = [
        join(&join("videos", "holiday"), "clip.avi"),
        join("videos", "clip.final.cut.mov"),
        "clip.mkv".to_string(),
        "no_extension".to_string(),
        join("dir.with.dots", ".hidden"),
        join("a", "trailing."),
    ];
    for source in &sources {
        for format in FORMATS {
            let output = VideoConverter::generate_output_path(source, format);
            let out = Path::new(&output);
            let src = Path::new(source);
            assert_eq!(out.extension().and_then(|e| e.to_str()), Some(format.extension()));
            assert_eq!(out.file_stem(), src.file_stem());
            assert_eq!(out.parent(), src.parent());
        }
    }
}

#[test]
fn output_path_exact_values() {
    assert_eq!(
        VideoConverter::generate_output_path(&join("videos", "clip.avi"), VideoFormat::MP4),
        join("videos", "clip.mp4")
    );
    assert_eq!(VideoConverter::generate_output_path("clip.avi", VideoFormat::WEBM), "clip.webm");
    assert_eq!(VideoConverter::generate_output_path("a.b.c", VideoFormat::MKV), "a.b.mkv");
    assert_eq!(VideoConverter::generate_output_path("", VideoFormat::MOV), ".mov");
}

#[test]
fn output_path_of_a_source_without_stem_is_dot_and_extension() {
    // The one shape of source for which the output has no extension of its
    // own: a path that has no file name.
    let output = VideoConverter::generate_output_path("..", VideoFormat::MP4);
    assert_eq!(output, ".mp4");
    assert_eq!(Path::new(&output).extension(), None);
}

#[test]
fn output_file_name_is_stem_dot_extension() {
    assert_eq!(output_file_name("clip", VideoFormat::AVI), "clip.avi");
    assert_eq!(output_file_name("a.b", VideoFormat::MP4), "a.b.mp4");
    assert_eq!(output_file_name("", VideoFormat::MP4), ".mp4");
}

#[test]
fn default_settings_change_nothing() {
    let s = VideoSettings::default();
    assert_eq!(s.resolution, Resolution::Original);
    assert_eq!(s.bitrate, Bitrate::Auto);
    assert_eq!(s.frame_rate, FrameRate::Original);
}

fn pick_backend(native: bool, external: bool) -> (ConversionMode, usize, usize) {
    let mut native_probes = 0;
    let mut external_probes = 0;
    let mut results = ProbeResults::new();
    loop {
        match results.next_step() {
            SelectionStep::Probe(ProbeKind::Native) => {
                native_probes += 1;
                results.record_native(Ok(native));
            }
            SelectionStep::Probe(ProbeKind::ExternalTool) => {
                external_probes += 1;
                results.record_external(Ok(external));
            }
            SelectionStep::Selected(mode) => return (mode, native_probes, external_probes),
        }
    }
}

#[test]
fn external_tool_is_not_probed_when_native_is_available() {
    assert_eq!(pick_backend(true, true), (ConversionMode::NativeFFmpeg, 1, 0));
    assert_eq!(pick_backend(true, false), (ConversionMode::NativeFFmpeg, 1, 0));
}

#[test]
fn selection_follows_the_priority_order() {
    assert_eq!(pick_backend(false, true), (ConversionMode::FFmpeg, 1, 1));
    assert_eq!(pick_backend(false, false), (ConversionMode::Simulation, 1, 1));
}

#[test]
fn a_probe_that_fails_counts_as_unavailable() {
    let mut results = ProbeResults::new();
    results.record_native(Err(NativeConverterError::UnsupportedFormat));
    assert_eq!(results.native, Some(false));
    assert_eq!(results.next_step(), SelectionStep::Probe(ProbeKind::ExternalTool));
    results.record_external(Err(FFmpegError::ExecutionError("permission denied".to_string())));
    assert_eq!(results.external, Some(false));
    assert_eq!(results.next_step(), SelectionStep::Selected(ConversionMode::Simulation));
}

#[test]
fn first_step_of_a_selection_is_the_native_probe() {
    let results = ProbeResults::new();
    assert_eq!(results.native, None);
    assert_eq!(results.external, None);
    assert_eq!(results.next_step(), SelectionStep::Probe(ProbeKind::Native));
}

#[test]
fn request_with_source_starts_the_backend_chosen() {
    for mode in [ConversionMode::Simulation, ConversionMode::FFmpeg, ConversionMode::NativeFFmpeg] {
        let mut converter = VideoConverter::new(mode);
        assert_eq!(converter.state(), ConverterState::Idle);
        assert_eq!(converter.mode(), mode);
        let events = converter.convert("clip.avi".to_string(), VideoFormat::MKV, true);
        assert_eq!(events.len(), 1);
        let e = &events[0];
        assert_eq!(e.percent, 0);
        assert_eq!(e.current_step, "Initializing conversion...");
        assert_eq!(e.source_file, "clip.avi");
        assert_eq!(e.output_file, "clip.mkv");
        assert_eq!(e.target_format, VideoFormat::MKV);
        assert!(!e.is_complete && !e.has_error);
        assert!(e.error_message.is_none());
        assert_eq!(e.video_settings, Some(VideoSettings::default()));
        assert_eq!(converter.state(), ConverterState::Running(mode));
        assert_eq!(converter.output_file(), "clip.mkv");
    }
}

#[test]
fn request_without_source_fails_at_once() {
    let mut converter = VideoConverter::new(ConversionMode::NativeFFmpeg);
    let events = converter.convert("deleted.avi".to_string(), VideoFormat::MP4, false);
    assert_eq!(events.len(), 1);
    let first = &events[0];
    assert!(first.has_error);
    assert!(!first.is_complete);
    assert_eq!(first.percent, 0);
    assert_eq!(first.current_step, "Invalid input file");
    assert_eq!(first.error_message.as_deref(), Some("Invalid input file"));
    for backend_text in ["native", "Native", "FFmpeg", "Analyzing", "Starting", "simulation"] {
        assert!(!first.current_step.contains(backend_text));
    }
    assert_eq!(converter.state(), ConverterState::Failed);
    assert!(converter.backend_failed("late").is_none());
    assert_eq!(converter.state(), ConverterState::Failed);
}

fn simulated(converter: &VideoConverter) -> Vec<(ConversionProgress, u64)> {
    converter.simulate_conversion().into_iter().map(|s| (s.progress, s.pause_ms)).collect()
}

#[test]
fn simulated_run_on_a_valid_file() {
    let mut converter = VideoConverter::new(ConversionMode::Simulation);
    let mut all: Vec<ConversionProgress> =
        converter.convert("clip.avi".to_string(), VideoFormat::MP4, true);
    let steps = simulated(&converter);
    assert_eq!(steps.len(), 66);
    for (progress, _) in &steps {
        assert!(converter.observe(progress).is_none());
        all.push(progress.clone());
    }
    assert_eq!(converter.state(), ConverterState::Succeeded);

    let initial: Vec<&ConversionProgress> = all
        .iter()
        .filter(|e| e.percent == 0 && e.current_step == "Initializing conversion...")
        .collect();
    assert_eq!(initial.len(), 1);
    assert_eq!(all[0].current_step, "Initializing conversion...");

    let frames: Vec<u8> = all
        .iter()
        .filter(|e| e.current_step.starts_with("Converting video frame "))
        .map(|e| e.percent)
        .collect();
    assert_eq!(frames, (20u8..=80).collect::<Vec<u8>>());
    assert!(frames.windows(2).all(|w| w[0] < w[1]));

    assert!(all.windows(2).all(|w| w[0].percent <= w[1].percent));
    let complete: Vec<&ConversionProgress> = all.iter().filter(|e| e.is_complete).collect();
    assert_eq!(complete.len(), 1);
    let last = all.last().unwrap();
    assert!(last.is_complete);
    assert_eq!(last.percent, 100);
    assert_eq!(last.current_step, "Conversion complete!");
    assert!(all.iter().all(|e| !e.has_error));
    assert!(all.iter().all(|e| e.source_file == "clip.avi" && e.output_file == "clip.mp4"));
}

#[test]
fn simulation_steps_exact() {
    let steps = simulation_steps("s.avi", VideoFormat::AVI, "s.avi");
    let brief: Vec<(u8, &str, u64)> =
        steps.iter().map(|s| (s.progress.percent, s.progress.current_step.as_str(), s.pause_ms)).collect();
    assert_eq!(brief[0], (0, "Analyzing video file...", 500));
    assert_eq!(brief[1], (10, "Extracting audio stream...", 1000));
    assert_eq!(brief[2], (20, "Converting video frame 20/100...", 100));
    assert_eq!(brief[32], (50, "Converting video frame 50/100...", 100));
    assert_eq!(brief[62], (80, "Converting video frame 80/100...", 100));
    assert_eq!(brief[63], (90, "Muxing audio and video streams...", 500));
    assert_eq!(brief[64], (100, "Finalizing output file...", 300));
    assert_eq!(brief[65], (100, "Conversion complete!", 0));
    assert_eq!(brief.len(), 66);
    assert!(!steps[64].progress.is_complete);
    assert!(steps[65].progress.is_complete);
}

#[test]
fn both_probes_negative_lead_to_a_completed_simulation() {
    let (mode, _, _) = pick_backend(false, false);
    assert_eq!(mode, ConversionMode::Simulation);
    let mut converter = VideoConverter::new(mode);
    converter.convert("clip.mov".to_string(), VideoFormat::WEBM, true);
    let mut saw_complete = false;
    for (progress, _) in simulated(&converter) {
        converter.observe(&progress);
        saw_complete = saw_complete || progress.is_complete;
    }
    assert!(saw_complete);
    assert_eq!(converter.state(), ConverterState::Succeeded);
}

fn error_event(message: Option<&str>) -> ConversionProgress {
    ConversionProgress {
        percent: 40,
        current_step: "Error writing video data: disk full".to_string(),
        source_file: "clip.avi".to_string(),
        target_format: VideoFormat::MP4,
        output_file: "clip.mp4".to_string(),
        is_complete: false,
        has_error: true,
        error_message: message.map(|m| m.to_string()),
        video_settings: None,
    }
}

#[test]
fn failure_of_the_native_backend_falls_back_to_the_simulation() {
    let mut converter = VideoConverter::new(ConversionMode::NativeFFmpeg);
    converter.convert("clip.avi".to_string(), VideoFormat::MP4, true);
    let notice = converter.observe(&error_event(Some("Write error: disk full"))).expect("a notice");
    assert_eq!(
        notice.current_step,
        "Native FFmpeg error: Write error: disk full, falling back to simulation"
    );
    assert_eq!(notice.error_message.as_deref(), Some("Native FFmpeg error: Write error: disk full"));
    assert_eq!(notice.percent, 0);
    assert!(notice.has_error && !notice.is_complete);
    assert_eq!(notice.source_file, "clip.avi");
    assert_eq!(notice.output_file, "clip.mp4");
    assert_eq!(converter.state(), ConverterState::Running(ConversionMode::Simulation));
}

#[test]
fn failure_of_the_external_tool_falls_back_to_the_simulation() {
    let mut converter = VideoConverter::new(ConversionMode::FFmpeg);
    converter.convert("clip.avi".to_string(), VideoFormat::MP4, true);
    let notice = converter.backend_failed("Invalid input file").expect("a notice");
    assert_eq!(notice.current_step, "FFmpeg error: Invalid input file, falling back to simulation");
    assert_eq!(notice.error_message.as_deref(), Some("FFmpeg error: Invalid input file"));
    assert_eq!(converter.state(), ConverterState::Running(ConversionMode::Simulation));
    // After the fallback the simulation's completion ends the request well.
    for (progress, _) in simulated(&converter) {
        converter.observe(&progress);
    }
    assert_eq!(converter.state(), ConverterState::Succeeded);
}

#[test]
fn error_report_without_message_gives_its_step_as_the_reason() {
    let mut converter = VideoConverter::new(ConversionMode::FFmpeg);
    converter.convert("clip.avi".to_string(), VideoFormat::MP4, true);
    let notice = converter.observe(&error_event(None)).expect("a notice");
    assert_eq!(
        notice.current_step,
        "FFmpeg error: Error writing video data: disk full, falling back to simulation"
    );
}

#[test]
fn failure_of_the_simulation_ends_the_request() {
    let mut converter = VideoConverter::new(ConversionMode::Simulation);
    converter.convert("clip.avi".to_string(), VideoFormat::MP4, true);
    assert!(converter.observe(&error_event(Some("x"))).is_none());
    assert_eq!(converter.state(), ConverterState::Failed);
}

#[test]
fn reports_after_the_end_change_nothing() {
    let mut converter = VideoConverter::new(ConversionMode::FFmpeg);
    converter.convert("clip.avi".to_string(), VideoFormat::MP4, true);
    let mut done = error_event(None);
    done.is_complete = true;
    done.has_error = false;
    assert!(converter.observe(&done).is_none());
    assert_eq!(converter.state(), ConverterState::Succeeded);
    assert!(converter.observe(&error_event(Some("late"))).is_none());
    assert_eq!(converter.state(), ConverterState::Succeeded);
}

#[test]
fn idle_converter_ignores_reports() {
    let mut converter = VideoConverter::new(ConversionMode::NativeFFmpeg);
    assert!(converter.observe(&error_event(Some("x"))).is_none());
    assert!(converter.backend_failed("x").is_none());
    assert_eq!(converter.state(), ConverterState::Idle);
}

#[test]
fn send_progress_appends_with_settings() {
    let mut events: Vec<ConversionProgress> = Vec::new();
    let settings = VideoSettings {
        resolution: Resolution::UHD4K,
        bitrate: Bitrate::High,
        frame_rate: FrameRate::FPS60,
    };
    VideoConverter::send_progress(
        &mut events, 12, "step".to_string(), "s", VideoFormat::MOV, "o", false, false, None, Some(settings),
    );
    VideoConverter::send_progress(
        &mut events, 13, "next".to_string(), "s", VideoFormat::MOV, "o", false, true, Some("bad".to_string()), None,
    );
    assert_eq!(events.len(), 2);
    assert_eq!(events[0].video_settings, Some(settings));
    assert_eq!(events[0].percent, 12);
    assert_eq!(events[1].current_step, "next");
    assert_eq!(events[1].error_message.as_deref(), Some("bad"));
}

use video_converter::converter::{ConversionProgress, VideoFormat};
use video_converter::ffmpeg::{
    classify_progress_line, conversion_command, duration_command, parse_thousandths, percent_done,
    seconds_string, trim, version_command, DurationQuery, FFmpegConverter, FFmpegError,
    FFmpegReply, FFmpegRequest, FFmpegStage, FFmpegStep, LaunchOutcome, ProcessExit, ProgressLine,
};

fn args(list: &[&str]) -> Vec<String> {
    list.iter().map(|s| s.to_string()).collect()
}

fn started() -> (FFmpegConverter, FFmpegStep) {
    let mut backend = FFmpegConverter::new();
    let step = backend
        .convert("in.avi".to_string(), VideoFormat::WEBM, "in.webm".to_string(), true)
        .expect("a run starts where the source exists");
    (backend, step)
}

fn only(step: &FFmpegStep) -> &ConversionProgress {
    assert_eq!(step.events.len(), 1);
    &step.events[0]
}

fn probed(stdout: &str) -> FFmpegReply {
    FFmpegReply::Probed(DurationQuery::Output {
        success: true,
        code: Some(0),
        stdout: stdout.as_bytes().to_vec(),
    })
}

fn line(text: &str) -> FFmpegReply {
    FFmpegReply::Line(text.as_bytes().to_vec())
}

fn reading(duration: &str) -> FFmpegConverter {
    let (mut backend, _) = started();
    backend.advance(probed(duration));
    let step = backend.advance(FFmpegReply::Spawned);
    assert!(step.events.is_empty());
    assert!(matches!(step.request, FFmpegRequest::ReadLine));
    assert_eq!(backend.stage(), FFmpegStage::Reading);
    backend
}

#[test]
fn ffmpeg_error_messages() {
    assert_eq!(FFmpegError::NotFound.message(), "FFmpeg not found on system");
    assert_eq!(
        FFmpegError::ExecutionError("denied".to_string()).message(),
        "Failed to execute FFmpeg: denied"
    );
    assert_eq!(FFmpegError::ProcessError(1).message(), "FFmpeg process failed with status: 1");
    assert_eq!(FFmpegError::ProcessError(-1).message(), "FFmpeg process failed with status: -1");
    assert_eq!(
        FFmpegError::ProcessError(i32::MIN).message(),
        "FFmpeg process failed with status: -2147483648"
    );
    assert_eq!(
        FFmpegError::ProcessError(i32::MAX).message(),
        "FFmpeg process failed with status: 2147483647"
    );
    assert_eq!(FFmpegError::ProcessTerminated.message(), "FFmpeg process terminated by signal");
    assert_eq!(FFmpegError::InvalidInput.message(), "Invalid input file");
}

#[test]
fn availability_from_the_version_query() {
    assert!(matches!(FFmpegConverter::check_ffmpeg_available(LaunchOutcome::Ran), Ok(true)));
    assert!(matches!(FFmpegConverter::check_ffmpeg_available(LaunchOutcome::NotFound), Ok(false)));
    match FFmpegConverter::check_ffmpeg_available(LaunchOutcome::Failed("permission denied".to_string())) {
        Err(FFmpegError::ExecutionError(text)) => assert_eq!(text, "permission denied"),
        other => panic!("expected an execution error, got {:?}", other),
    }
}

#[test]
fn command_lines_for_each_format() {
    let c = conversion_command("a b.avi", VideoFormat::MP4, "a b.mp4");
    assert_eq!(c.program, "ffmpeg");
    assert_eq!(
        c.args,
        args(&[
            "-i", "a b.avi", "-y", "-c:v", "libx264", "-preset", "medium", "-crf", "23", "-c:a",
            "aac", "-b:a", "128k", "-progress", "pipe:1", "a b.mp4",
        ])
    );
    assert_eq!(
        conversion_command("s", VideoFormat::MKV, "o").args,
        args(&[
            "-i", "s", "-y", "-c:v", "libx264", "-preset", "slow", "-crf", "18", "-c:a", "copy",
            "-progress", "pipe:1", "o",
        ])
    );
    assert_eq!(
        conversion_command("s", VideoFormat::AVI, "o").args,
        args(&[
            "-i", "s", "-y", "-c:v", "mpeg4", "-q:v", "6", "-c:a", "libmp3lame", "-q:a", "4",
            "-progress", "pipe:1", "o",
        ])
    );
    assert_eq!(
        conversion_command("s", VideoFormat::MOV, "o").args,
        args(&[
            "-i", "s", "-y", "-c:v", "prores_ks", "-profile:v", "3", "-c:a", "pcm_s16le",
            "-progress", "pipe:1", "o",
        ])
    );
    assert_eq!(
        conversion_command("s", VideoFormat::WEBM, "o").args,
        args(&[
            "-i", "s", "-y", "-c:v", "libvpx-vp9", "-crf", "30", "-b:v", "0", "-c:a", "libopus",
            "-b:a", "96k", "-progress", "pipe:1", "o",
        ])
    );
}

#[test]
fn command_lines_of_the_queries() {
    let d = duration_command("clip.mov");
    assert_eq!(d.program, "ffprobe");
    assert_eq!(
        d.args,
        args(&[
            "-v", "error", "-show_entries", "format=duration", "-of",
            "default=noprint_wrappers=1:nokey=1", "clip.mov",
        ])
    );
    let v = version_command();
    assert_eq!(v.program, "ffmpeg");
    assert_eq!(v.args, args(&["-version"]));
}

#[test]
fn numerals_in_thousandths() {
    assert_eq!(parse_thousandths(b"0"), Some(0));
    assert_eq!(parse_thousandths(b"12"), Some(12_000));
    assert_eq!(parse_thousandths(b"12.5"), Some(12_500));
    assert_eq!(parse_thousandths(b"12.345678"), Some(12_345));
    assert_eq!(parse_thousandths(b"12."), Some(12_000));
    assert_eq!(parse_thousandths(b"0.007"), Some(7));
    assert_eq!(parse_thousandths(b"0.07"), Some(70));
    assert_eq!(parse_thousandths(b"007"), Some(7_000));
    assert_eq!(parse_thousandths(b"-3"), Some(0));
    assert_eq!(parse_thousandths(b"-3.9"), Some(0));
    assert_eq!(parse_thousandths(b"18446744073709551"), Some(18_446_744_073_709_551_000));
    assert_eq!(parse_thousandths(b"18446744073709551.615"), Some(u64::MAX));
    assert_eq!(parse_thousandths(b"18446744073709551.616"), Some(u64::MAX));
    assert_eq!(parse_thousandths(b"99999999999999999999999999999999999999999999"), Some(u64::MAX));
}

#[test]
fn malformed_numerals_are_none() {
    for text in ["", "-", ".", ".5", "1.2.3", "12a", "a12", "1e3", "+5", " 5", "5 ", "N/A", "--1", "1.-2", "1.x"] {
        assert_eq!(parse_thousandths(text.as_bytes()), None, "{:?}", text);
    }
}

#[test]
fn trim_cuts_ascii_white_space() {
    assert_eq!(trim(b"  12.5\n"), b"12.5");
    assert_eq!(trim(b"\t\r\n x y \x0b\x0c"), b"x y");
    assert_eq!(trim(b""), b"");
    assert_eq!(trim(b" \n "), b"");
    assert_eq!(trim(b"abc"), b"abc");
}

#[test]
fn progress_lines() {
    assert_eq!(classify_progress_line(b"out_time_ms=1500000"), ProgressLine::OutTime(1_500_000));
    assert_eq!(classify_progress_line(b"out_time_ms=12.9"), ProgressLine::OutTime(12));
    assert_eq!(classify_progress_line(b"out_time_ms=-7"), ProgressLine::OutTime(0));
    assert_eq!(classify_progress_line(b"out_time_ms=N/A"), ProgressLine::Other);
    assert_eq!(classify_progress_line(b"out_time_ms="), ProgressLine::Other);
    assert_eq!(classify_progress_line(b"duration=12.5"), ProgressLine::Duration(12_500));
    assert_eq!(classify_progress_line(b"duration=x"), ProgressLine::Other);
    assert_eq!(classify_progress_line(b"progress=end"), ProgressLine::End);
    assert_eq!(classify_progress_line(b"progress=end "), ProgressLine::Other);
    assert_eq!(classify_progress_line(b"progress=continue"), ProgressLine::Other);
    assert_eq!(classify_progress_line(b"frame=10"), ProgressLine::Other);
    assert_eq!(classify_progress_line(b""), ProgressLine::Other);
    assert_eq!(classify_progress_line("out_time_ms=1\u{e9}".as_bytes()), ProgressLine::Other);
}

#[test]
fn percent_done_formula() {
    assert_eq!(percent_done(0, 1000), 0);
    assert_eq!(percent_done(500, 1000), 50);
    assert_eq!(percent_done(999, 1000), 99);
    assert_eq!(percent_done(1000, 1000), 100);
    assert_eq!(percent_done(5000, 1000), 100);
    assert_eq!(percent_done(1, 3), 33);
    assert_eq!(percent_done(7, 0), 0);
    assert_eq!(percent_done(u64::MAX, 1), 100);
    assert_eq!(percent_done(u64::MAX, u64::MAX), 100);
}

#[test]
fn seconds_are_written_without_trailing_zeros() {
    assert_eq!(seconds_string(0), "0");
    assert_eq!(seconds_string(60_000), "60");
    assert_eq!(seconds_string(12_500), "12.5");
    assert_eq!(seconds_string(12_050), "12.05");
    assert_eq!(seconds_string(12_005), "12.005");
    assert_eq!(seconds_string(12_345), "12.345");
    assert_eq!(seconds_string(999), "0.999");
    assert_eq!(seconds_string(10), "0.01");
}

#[test]
fn duration_from_the_query() {
    let ok = DurationQuery::Output { success: true, code: Some(0), stdout: b"12.345000\n".to_vec() };
    assert!(matches!(FFmpegConverter::get_video_duration(&ok), Ok(12_345)));
    let bad_text = DurationQuery::Output { success: true, code: Some(0), stdout: b"N/A\n".to_vec() };
    assert!(matches!(FFmpegConverter::get_video_duration(&bad_text), Err(FFmpegError::InvalidInput)));
    let failed = DurationQuery::Output { success: false, code: Some(3), stdout: b"12\n".to_vec() };
    assert!(matches!(FFmpegConverter::get_video_duration(&failed), Err(FFmpegError::ProcessError(3))));
    let killed = DurationQuery::Output { success: false, code: None, stdout: Vec::new() };
    assert!(matches!(FFmpegConverter::get_video_duration(&killed), Err(FFmpegError::ProcessError(-1))));
    match FFmpegConverter::get_video_duration(&DurationQuery::LaunchFailed("no ffprobe".to_string())) {
        Err(FFmpegError::ExecutionError(text)) => assert_eq!(text, "no ffprobe"),
        other => panic!("expected an execution error, got {:?}", other),
    }
}

#[test]
fn ffmpeg_convert_without_source_is_invalid_input() {
    let mut backend = FFmpegConverter::new();
    let result = backend.convert("gone".to_string(), VideoFormat::MP4, "gone.mp4".to_string(), false);
    assert!(matches!(result, Err(FFmpegError::InvalidInput)));
    assert_eq!(backend.stage(), FFmpegStage::Idle);
}

#[test]
fn ffmpeg_run_to_completion() {
    let (mut backend, step) = started();
    let first = only(&step);
    assert_eq!((first.percent, first.current_step.as_str()), (0, "Starting FFmpeg conversion..."));
    assert_eq!(first.source_file, "in.avi");
    assert_eq!(first.output_file, "in.webm");
    match &step.request {
        FFmpegRequest::ProbeDuration(c) => {
            assert_eq!(c.program, "ffprobe");
            assert_eq!(c.args.last().map(|s| s.as_str()), Some("in.avi"));
        }
        other => panic!("expected the duration query, got {:?}", other),
    }

    let step = backend.advance(probed("10.000000\n"));
    assert_eq!(only(&step).current_step, "Analyzing video file... Duration: 10 seconds");
    assert_eq!(only(&step).percent, 0);
    match &step.request {
        FFmpegRequest::Spawn(c) => {
            assert_eq!(c.program, "ffmpeg");
            assert_eq!(c.args, conversion_command("in.avi", VideoFormat::WEBM, "in.webm").args);
        }
        other => panic!("expected the tool to be started, got {:?}", other),
    }

    let step = backend.advance(FFmpegReply::Spawned);
    assert!(step.events.is_empty());

    let mut percents = vec![0u8];
    for (text, percent) in [("out_time_ms=2500", 25u8), ("out_time_ms=5000", 50), ("out_time_ms=20000", 100)] {
        let step = backend.advance(line(text));
        let event = only(&step);
        assert_eq!(event.percent, percent);
        assert_eq!(event.current_step, format!("Converting video... {}%", percent));
        assert!(!event.is_complete && !event.has_error);
        assert!(matches!(step.request, FFmpegRequest::ReadLine));
        percents.push(event.percent);
    }
    assert!(percents.windows(2).all(|w| w[0] <= w[1]));

    let step = backend.advance(line("speed=1.0x"));
    assert!(step.events.is_empty());
    assert!(matches!(step.request, FFmpegRequest::ReadLine));

    let step = backend.advance(FFmpegReply::Line(vec![0xff, 0xfe, b'=', 0x80]));
    assert!(step.events.is_empty(), "a line that is no text is dropped");
    assert!(matches!(step.request, FFmpegRequest::ReadLine));

    let step = backend.advance(line("progress=end"));
    let done = only(&step);
    assert_eq!((done.percent, done.current_step.as_str()), (100, "Conversion complete!"));
    assert!(done.is_complete && !done.has_error);
    assert!(matches!(step.request, FFmpegRequest::Wait));
    assert_eq!(backend.stage(), FFmpegStage::Waiting);

    let step = backend.advance(FFmpegReply::Exited(ProcessExit::Success));
    assert!(step.events.is_empty());
    assert!(matches!(step.request, FFmpegRequest::Stop));
    assert_eq!(backend.stage(), FFmpegStage::Complete);
    assert_eq!(backend.percent(), 100);
}

#[test]
fn ffmpeg_without_duration_reports_no_percent() {
    let (mut backend, _) = started();
    let step = backend.advance(FFmpegReply::Probed(DurationQuery::LaunchFailed("missing".to_string())));
    assert_eq!(only(&step).current_step, "Analyzing video file... Duration: 0 seconds");
    assert!(!only(&step).has_error, "an unknown duration does not fail the run");
    backend.advance(FFmpegReply::Spawned);
    let step = backend.advance(line("out_time_ms=2500"));
    assert!(step.events.is_empty());
    let step = backend.advance(line("duration=5"));
    assert!(step.events.is_empty());
    let step = backend.advance(line("out_time_ms=2500"));
    assert_eq!(only(&step).percent, 50);
}

#[test]
fn ffmpeg_duration_query_failure_reply_counts_as_unknown() {
    let (mut backend, _) = started();
    let step = backend.advance(FFmpegReply::Failed("cannot run".to_string()));
    assert_eq!(only(&step).current_step, "Analyzing video file... Duration: 0 seconds");
    assert!(matches!(step.request, FFmpegRequest::Spawn(_)));
    assert_eq!(backend.stage(), FFmpegStage::Spawning);
}

#[test]
fn ffmpeg_spawn_failure_is_a_terminal_error() {
    let (mut backend, _) = started();
    backend.advance(probed("10"));
    let step = backend.advance(FFmpegReply::Failed("No such file or directory".to_string()));
    let event = only(&step);
    assert_eq!(event.current_step, "Failed to start FFmpeg: No such file or directory");
    assert_eq!(event.error_message.as_deref(), Some("Failed to start FFmpeg: No such file or directory"));
    assert!(event.has_error && !event.is_complete);
    assert!(matches!(step.request, FFmpegRequest::Stop));
    assert_eq!(backend.stage(), FFmpegStage::Failed);
}

#[test]
fn ffmpeg_exit_code_and_signal_are_told_apart() {
    let mut backend = reading("10");
    backend.advance(line("out_time_ms=4000"));
    backend.advance(FFmpegReply::EndOfStream);
    assert_eq!(backend.stage(), FFmpegStage::Waiting);
    let step = backend.advance(FFmpegReply::Exited(ProcessExit::Code(1)));
    let event = only(&step);
    assert_eq!(event.current_step, "FFmpeg failed with exit code: 1");
    assert_eq!(event.error_message.as_deref(), Some("FFmpeg process failed with status: 1"));
    assert_eq!(event.percent, 40, "the error keeps the percent reached");
    assert!(event.has_error && !event.is_complete);
    assert_eq!(backend.stage(), FFmpegStage::Failed);

    let mut backend = reading("10");
    backend.advance(FFmpegReply::EndOfStream);
    let step = backend.advance(FFmpegReply::Exited(ProcessExit::Signal));
    let event = only(&step);
    assert_eq!(event.current_step, "FFmpeg process terminated by signal");
    assert_eq!(event.error_message.as_deref(), Some("FFmpeg process terminated by signal"));
    assert!(event.has_error && !event.is_complete);

    let mut backend = reading("10");
    backend.advance(FFmpegReply::EndOfStream);
    let step = backend.advance(FFmpegReply::Failed("interrupted".to_string()));
    assert_eq!(only(&step).current_step, "Error waiting for FFmpeg: interrupted");
    assert!(only(&step).has_error);
}

#[test]
fn ffmpeg_good_exit_without_end_marker_reports_completion() {
    let mut backend = reading("10");
    backend.advance(line("out_time_ms=4000"));
    let step = backend.advance(FFmpegReply::EndOfStream);
    assert!(step.events.is_empty());
    assert!(matches!(step.request, FFmpegRequest::Wait));
    let step = backend.advance(FFmpegReply::Exited(ProcessExit::Success));
    let done = only(&step);
    assert_eq!((done.percent, done.current_step.as_str()), (100, "Conversion complete!"));
    assert!(done.is_complete && !done.has_error);
    assert!(done.error_message.is_none());
    assert!(matches!(step.request, FFmpegRequest::Stop));
    assert_eq!(backend.stage(), FFmpegStage::Complete);
    assert_eq!(backend.percent(), 100);
}

#[test]
fn ffmpeg_run_without_duration_or_lines_still_ends_with_completion() {
    let (mut backend, _) = started();
    backend.advance(FFmpegReply::Probed(DurationQuery::LaunchFailed("missing".to_string())));
    backend.advance(FFmpegReply::Spawned);
    backend.advance(FFmpegReply::EndOfStream);
    let step = backend.advance(FFmpegReply::Exited(ProcessExit::Success));
    let done = only(&step);
    assert!(done.is_complete && !done.has_error);
    assert_eq!(done.percent, 100);
    assert_eq!(backend.stage(), FFmpegStage::Complete);
}

#[test]
fn ffmpeg_good_exit_after_the_end_marker_reports_nothing_more() {
    let mut backend = reading("10");
    let step = backend.advance(line("progress=end"));
    assert!(only(&step).is_complete);
    let step = backend.advance(FFmpegReply::Exited(ProcessExit::Success));
    assert!(step.events.is_empty(), "the completion is reported once");
    assert!(matches!(step.request, FFmpegRequest::Stop));
    assert_eq!(backend.stage(), FFmpegStage::Complete);
}

#[test]
fn ffmpeg_read_failure_is_a_terminal_error() {
    let mut backend = reading("10");
    backend.advance(line("out_time_ms=2500"));
    let step = backend.advance(FFmpegReply::Failed("broken pipe".to_string()));
    let event = only(&step);
    assert_eq!(event.current_step, "Error reading FFmpeg output: broken pipe");
    assert_eq!(event.error_message.as_deref(), Some("Error reading FFmpeg output: broken pipe"));
    assert_eq!(event.percent, 25, "the error keeps the percent reached");
    assert!(event.has_error && !event.is_complete);
    assert!(matches!(step.request, FFmpegRequest::Stop));
    assert_eq!(backend.stage(), FFmpegStage::Failed);
}

#[test]
fn ffmpeg_bad_exit_after_completion_keeps_100_percent() {
    let mut backend = reading("10");
    backend.advance(line("progress=end"));
    let step = backend.advance(FFmpegReply::Exited(ProcessExit::Code(-2)));
    let event = only(&step);
    assert_eq!(event.percent, 100);
    assert_eq!(event.current_step, "FFmpeg failed with exit code: -2");
    assert!(event.has_error && !event.is_complete);
}

#[test]
fn ffmpeg_unexpected_reply_fails_the_run() {
    let (mut backend, _) = started();
    let step = backend.advance(FFmpegReply::Spawned);
    let event = only(&step);
    assert_eq!(event.current_step, "Failed to execute FFmpeg: unexpected reply");
    assert_eq!(event.error_message.as_deref(), Some("Failed to execute FFmpeg: unexpected reply"));
    assert!(event.has_error);
    assert_eq!(backend.stage(), FFmpegStage::Failed);
    let again = backend.advance(FFmpegReply::EndOfStream);
    assert!(again.events.is_empty());
    assert!(matches!(again.request, FFmpegRequest::Stop));
}

#[test]
fn ffmpeg_percent_never_falls_when_the_time_goes_back() {
    let mut backend = reading("10");
    let step = backend.advance(line("out_time_ms=5000"));
    assert_eq!(only(&step).percent, 50);
    let step = backend.advance(line("out_time_ms=2000"));
    assert_eq!(only(&step).percent, 50);
    assert_eq!(only(&step).current_step, "Converting video... 50%");
    let step = backend.advance(line("out_time_ms=8000"));
    assert_eq!(only(&step).percent, 80);
    assert_eq!(backend.percent(), 80);
}

#[test]
fn ffmpeg_percent_never_falls_when_the_duration_grows() {
    let mut backend = reading("10");
    assert_eq!(only(&backend.advance(line("out_time_ms=8000"))).percent, 80);
    assert!(backend.advance(line("duration=100")).events.is_empty());
    let step = backend.advance(line("out_time_ms=9000"));
    assert_eq!(only(&step).percent, 80);
    let step = backend.advance(line("out_time_ms=90000"));
    assert_eq!(only(&step).percent, 90);
}

#[test]
fn ffmpeg_reports_of_any_run_never_fall() {
    let lines = [
        "out_time_ms=3000", "duration=4", "out_time_ms=1000", "junk", "out_time_ms=3999",
        "duration=400", "out_time_ms=2", "duration=1", "out_time_ms=0", "out_time_ms=700",
        "progress=end",
    ];
    let (mut backend, first) = started();
    let mut percents: Vec<u8> = first.events.iter().map(|e| e.percent).collect();
    let mut replies = vec![probed("10"), FFmpegReply::Spawned];
    replies.extend(lines.iter().map(|l| line(l)));
    replies.push(FFmpegReply::Exited(ProcessExit::Code(9)));
    let mut last_has_error = false;
    for reply in replies {
        for e in backend.advance(reply).events {
            percents.push(e.percent);
            last_has_error = e.has_error;
        }
    }
    assert!(percents.windows(2).all(|w| w[0] <= w[1]), "{:?}", percents);
    assert!(percents.iter().all(|p| *p <= 100));
    assert!(last_has_error);
    assert_eq!(backend.stage(), FFmpegStage::Failed);
}

#[test]
fn ffmpeg_send_progress_appends_in_order() {
    let mut events: Vec<ConversionProgress> = Vec::new();
    FFmpegConverter::send_progress(&mut events, 3, "x".to_string(), "s", VideoFormat::MOV, "o", true, false, None);
    FFmpegConverter::send_progress(&mut events, 4, "y".to_string(), "s", VideoFormat::MOV, "o", false, false, None);
    assert_eq!(events.len(), 2);
    assert_eq!((events[0].percent, events[0].is_complete), (3, true));
    assert_eq!((events[1].percent, events[1].current_step.as_str()), (4, "y"));
    assert_eq!(events[1].target_format, VideoFormat::MOV);
}

//! The external-tool backend: the command lines it runs, the progress lines
//! it reads, and the step function that turns the tool's output into reports.

use vstd::prelude::*;
use vstd::slice::slice_subrange;
use crate::converter::{
    completion_report, ends_complete, ends_in_error, failure_report, lemma_trace_push,
    lemma_watched_completion, lemma_watched_run, non_decreasing, progress_report,
    reports_completion, rising_from, trace, watched, ConversionMode, ConversionProgress,
    ConverterState, ConverterView, ProgressView, VideoFormat,
};
use crate::paths::opt_chars;
use crate::text::{
    ascii, ascii_bytes, concat2, concat3, decimal, decimal_string, digit_char, signed_decimal,
    signed_decimal_string,
};

verus! {

/// Why the external tool could not be used.
#[derive(Debug)]
pub enum FFmpegError {
    /// The tool is not installed.
    NotFound,
    /// The tool could not be launched; the text is the launcher's complaint.
    ExecutionError(String),
    /// The tool exited with this status.
    ProcessError(i32),
    /// A signal ended the tool.
    ProcessTerminated,
    /// The source file does not exist, or its duration cannot be read.
    InvalidInput,
}

impl FFmpegError {
    /// The text of the error.
    pub open spec fn text(self) -> Seq<char> {
        match self {
            FFmpegError::NotFound => "FFmpeg not found on system"@,
            FFmpegError::ExecutionError(e) => "Failed to execute FFmpeg: "@ + e@,
            FFmpegError::ProcessError(code) => "FFmpeg process failed with status: "@
                + signed_decimal(code as int),
            FFmpegError::ProcessTerminated => "FFmpeg process terminated by signal"@,
            FFmpegError::InvalidInput => "Invalid input file"@,
        }
    }

    /// The text of the error, for display.
    pub fn message(&self) -> (r: String)
        ensures
            r@ == self.text(),
    {
        match self {
            FFmpegError::NotFound => String::from_str("FFmpeg not found on system"),
            FFmpegError::ExecutionError(e) => concat2("Failed to execute FFmpeg: ", e.as_str()),
            FFmpegError::ProcessError(code) => {
                let digits = signed_decimal_string(*code);
                concat2("FFmpeg process failed with status: ", digits.as_str())
            },
            FFmpegError::ProcessTerminated => String::from_str(
                "FFmpeg process terminated by signal",
            ),
            FFmpegError::InvalidInput => String::from_str("Invalid input file"),
        }
    }
}

/// Whether a byte is a decimal digit.
pub open spec fn is_digit(b: u8) -> bool {
    48 <= b <= 57
}

/// Whether every byte is a decimal digit.
pub open spec fn all_digits(s: Seq<u8>) -> bool {
    forall|i: int| 0 <= i < s.len() ==> is_digit(#[trigger] s[i])
}

/// The number that a run of decimal digits denotes.
pub open spec fn digits_value(s: Seq<u8>) -> nat
    decreases s.len(),
{
    if s.len() == 0 {
        0
    } else {
        digits_value(s.drop_last()) * 10 + (s.last() - 48) as nat
    }
}

/// The index of the first dot, or the length where there is none.
pub open spec fn first_dot(s: Seq<u8>) -> int
    decreases s.len(),
{
    if s.len() == 0 {
        0
    } else if s[0] == 46 {
        0
    } else {
        1 + first_dot(s.drop_first())
    }
}

/// The digit at a place of the fraction, zero beyond its end.
pub open spec fn fraction_digit(fraction: Seq<u8>, i: int) -> nat {
    if 0 <= i < fraction.len() {
        (fraction[i] - 48) as nat
    } else {
        0
    }
}

/// A numeral without its sign: digits, at least one, and then perhaps a dot
/// and more digits. Its value is counted in thousandths; digits beyond the
/// third of the fraction are dropped.
pub open spec fn unsigned_thousandths(s: Seq<u8>) -> Option<nat> {
    let dot = first_dot(s);
    let whole = s.subrange(0, dot);
    let fraction = if dot < s.len() {
        s.subrange(dot + 1, s.len() as int)
    } else {
        Seq::<u8>::empty()
    };
    if whole.len() > 0 && all_digits(whole) && all_digits(fraction) {
        Some(
            digits_value(whole) * 1000 + fraction_digit(fraction, 0) * 100 + fraction_digit(
                fraction,
                1,
            ) * 10 + fraction_digit(fraction, 2),
        )
    } else {
        None
    }
}

/// A numeral: an unsigned numeral, perhaps after a minus sign. A negative
/// one counts as zero, and one beyond the largest `u64` as the largest.
pub open spec fn thousandths(s: Seq<u8>) -> Option<u64> {
    if s.len() > 0 && s[0] == 45 {
        match unsigned_thousandths(s.drop_first()) {
            Some(_) => Some(0u64),
            None => None,
        }
    } else {
        match unsigned_thousandths(s) {
            Some(v) => Some(
                if v > u64::MAX {
                    u64::MAX
                } else {
                    v as u64
                },
            ),
            None => None,
        }
    }
}

/// The whole units of a numeral, its fraction dropped.
pub open spec fn whole_units(s: Seq<u8>) -> Option<u64> {
    match thousandths(s) {
        Some(v) => Some((v / 1000) as u64),
        None => None,
    }
}

/// The first dot lies within the text, and no dot comes before it.
pub proof fn lemma_first_dot(s: Seq<u8>)
    ensures
        0 <= first_dot(s) <= s.len(),
        first_dot(s) < s.len() ==> s[first_dot(s)] == 46,
        forall|i: int| 0 <= i < first_dot(s) ==> s[i] != 46,
    decreases s.len(),
{
    if s.len() > 0 && s[0] != 46 {
        lemma_first_dot(s.drop_first());
        assert forall|i: int| 0 <= i < first_dot(s) implies s[i] != 46 by {
            if i > 0 {
                assert(s[i] == s.drop_first()[i - 1]);
            }
        }
    }
}

/// A text whose first `n` bytes hold no dot, and that has a dot at `n` or
/// ends there, has its first dot at `n`.
pub proof fn lemma_first_dot_is(s: Seq<u8>, n: int)
    requires
        0 <= n <= s.len(),
        forall|i: int| 0 <= i < n ==> s[i] != 46,
        n < s.len() ==> s[n] == 46,
    ensures
        first_dot(s) == n,
{
    lemma_first_dot(s);
    if first_dot(s) < n {
        assert(s[first_dot(s)] == 46);
    }
}

/// Reads the digits from `start` on. Returns where they end and their value,
/// which is held at 2^64 where it is larger.
fn scan_digits(s: &[u8], start: usize) -> (r: (usize, u128))
    requires
        start <= s@.len(),
    ensures
        start <= r.0 <= s@.len(),
        all_digits(s@.subrange(start as int, r.0 as int)),
        r.0 < s@.len() ==> !is_digit(s@[r.0 as int]),
        digits_value(s@.subrange(start as int, r.0 as int)) <= u64::MAX ==> r.1 == digits_value(
            s@.subrange(start as int, r.0 as int),
        ),
        digits_value(s@.subrange(start as int, r.0 as int)) > u64::MAX ==> r.1
            == 0x1_0000_0000_0000_0000u128,
{
    let n = s.len();
    let mut i: usize = start;
    let mut acc: u128 = 0;
    assert(s@.subrange(start as int, start as int) =~= Seq::<u8>::empty());
    while i < n && s[i] >= 48 && s[i] <= 57
        invariant
            n == s@.len(),
            start <= i <= n,
            all_digits(s@.subrange(start as int, i as int)),
            acc <= 0x1_0000_0000_0000_0000u128,
            digits_value(s@.subrange(start as int, i as int)) <= u64::MAX ==> acc == digits_value(
                s@.subrange(start as int, i as int),
            ),
            digits_value(s@.subrange(start as int, i as int)) > u64::MAX ==> acc
                == 0x1_0000_0000_0000_0000u128,
        decreases n - i,
    {
        let digit: u128 = (s[i] - 48) as u128;
        proof {
            let before = s@.subrange(start as int, i as int);
            let after = s@.subrange(start as int, i + 1);
            assert(after.drop_last() =~= before);
            assert(after.last() == s@[i as int]);
            assert(digits_value(after) == digits_value(before) * 10 + digit);
            assert forall|k: int| 0 <= k < after.len() implies is_digit(#[trigger] after[k]) by {
                if k < before.len() {
                    assert(after[k] == before[k]);
                }
            }
        }
        let next: u128 = acc * 10 + digit;
        acc = if next > 0x1_0000_0000_0000_0000u128 {
            0x1_0000_0000_0000_0000u128
        } else {
            next
        };
        i = i + 1;
    }
    (i, acc)
}

/// Reads a numeral without sign. The value is in thousandths, and exact
/// where it fits a `u64`; a larger one comes back as some number beyond it.
fn parse_unsigned(s: &[u8]) -> (r: Option<u128>)
    ensures
        r is Some <==> unsigned_thousandths(s@) is Some,
        r matches Some(v) ==> {
            &&& unsigned_thousandths(s@)->0 <= u64::MAX ==> v == unsigned_thousandths(s@)->0
            &&& unsigned_thousandths(s@)->0 > u64::MAX ==> v > u64::MAX
        },
{
    let n = s.len();
    let scanned = scan_digits(s, 0);
    let dot = scanned.0;
    let whole = scanned.1;
    proof {
        lemma_first_dot(s@);
    }
    if dot == 0 {
        proof {
            let d = first_dot(s@);
            if d > 0 {
                assert(s@.subrange(0, d)[0] == s@[0]);
            }
        }
        return None;
    }
    if dot < n && s[dot] != 46 {
        proof {
            let d = first_dot(s@);
            if d <= dot {
                if d < dot {
                    assert(s@.subrange(0, dot as int)[d] == s@[d]);
                }
            } else {
                assert(s@.subrange(0, d)[dot as int] == s@[dot as int]);
            }
        }
        return None;
    }
    proof {
        assert forall|i: int| 0 <= i < dot implies s@[i] != 46 by {
            assert(s@.subrange(0, dot as int)[i] == s@[i]);
        }
        lemma_first_dot_is(s@, dot as int);
    }
    let ghost fraction = if dot < n {
        s@.subrange(dot + 1, n as int)
    } else {
        Seq::<u8>::empty()
    };
    let mut d0: u128 = 0;
    let mut d1: u128 = 0;
    let mut d2: u128 = 0;
    if dot < n {
        let ended = scan_digits(s, dot + 1);
        if ended.0 < n {
            proof {
                assert(fraction[ended.0 - dot - 1] == s@[ended.0 as int]);
            }
            return None;
        }
        if n - dot > 1 {
            assert(fraction[0] == s@[dot + 1]);
            d0 = (s[dot + 1] - 48) as u128;
        }
        if n - dot > 2 {
            assert(fraction[1] == s@[dot + 2]);
            d1 = (s[dot + 2] - 48) as u128;
        }
        if n - dot > 3 {
            assert(fraction[2] == s@[dot + 3]);
            d2 = (s[dot + 3] - 48) as u128;
        }
    }
    assert(d0 == fraction_digit(fraction, 0));
    assert(d1 == fraction_digit(fraction, 1));
    assert(d2 == fraction_digit(fraction, 2));
    Some(whole * 1000 + d0 * 100 + d1 * 10 + d2)
}

/// Reads a numeral and gives its value in thousandths; `None` for a text that
/// is no numeral.
pub fn parse_thousandths(s: &[u8]) -> (r: Option<u64>)
    ensures
        r == thousandths(s@),
{
    let n = s.len();
    if n > 0 && s[0] == 45 {
        let body = slice_subrange(s, 1, n);
        assert(body@ =~= s@.drop_first());
        match parse_unsigned(body) {
            Some(_) => Some(0),
            None => None,
        }
    } else {
        match parse_unsigned(s) {
            Some(v) => {
                if v > u64::MAX as u128 {
                    Some(u64::MAX)
                } else {
                    Some(v as u64)
                }
            },
            None => None,
        }
    }
}

/// A program to run, with its arguments.
#[derive(Debug)]
pub struct CommandLine {
    pub program: String,
    pub args: Vec<String>,
}

/// The texts of a list of strings, in order.
pub open spec fn texts(list: Seq<String>) -> Seq<Seq<char>> {
    Seq::new(list.len(), |i: int| list[i]@)
}

/// A command line with its texts as character sequences.
pub ghost struct CommandView {
    pub program: Seq<char>,
    pub args: Seq<Seq<char>>,
}

impl View for CommandLine {
    type V = CommandView;

    open spec fn view(&self) -> CommandView {
        CommandView { program: self.program@, args: texts(self.args@) }
    }
}

/// The encoder settings of a format: one fixed profile for each.
pub open spec fn encoding_profile(format: VideoFormat) -> Seq<Seq<char>> {
    match format {
        VideoFormat::MP4 => seq![
            "-c:v"@,
            "libx264"@,
            "-preset"@,
            "medium"@,
            "-crf"@,
            "23"@,
            "-c:a"@,
            "aac"@,
            "-b:a"@,
            "128k"@,
        ],
        VideoFormat::MKV => seq![
            "-c:v"@,
            "libx264"@,
            "-preset"@,
            "slow"@,
            "-crf"@,
            "18"@,
            "-c:a"@,
            "copy"@,
        ],
        VideoFormat::AVI => seq![
            "-c:v"@,
            "mpeg4"@,
            "-q:v"@,
            "6"@,
            "-c:a"@,
            "libmp3lame"@,
            "-q:a"@,
            "4"@,
        ],
        VideoFormat::MOV => seq!["-c:v"@, "prores_ks"@, "-profile:v"@, "3"@, "-c:a"@, "pcm_s16le"@],
        VideoFormat::WEBM => seq![
            "-c:v"@,
            "libvpx-vp9"@,
            "-crf"@,
            "30"@,
            "-b:v"@,
            "0"@,
            "-c:a"@,
            "libopus"@,
            "-b:a"@,
            "96k"@,
        ],
    }
}

/// The command that converts: the source, overwriting allowed, the format's
/// profile, progress lines on standard output, the output file.
pub open spec fn conversion_command_view(
    source: Seq<char>,
    format: VideoFormat,
    output: Seq<char>,
) -> CommandView {
    CommandView {
        program: "ffmpeg"@,
        args: seq!["-i"@, source, "-y"@] + encoding_profile(format) + seq![
            "-progress"@,
            "pipe:1"@,
            output,
        ],
    }
}

/// The command that asks for a file's duration in seconds.
pub open spec fn duration_command_view(source: Seq<char>) -> CommandView {
    CommandView {
        program: "ffprobe"@,
        args: seq![
            "-v"@,
            "error"@,
            "-show_entries"@,
            "format=duration"@,
            "-of"@,
            "default=noprint_wrappers=1:nokey=1"@,
            source,
        ],
    }
}

/// The command that asks the tool for its version.
pub open spec fn version_command_view() -> CommandView {
    CommandView { program: "ffmpeg"@, args: seq!["-version"@] }
}

/// Appends one argument.
fn push_arg(args: &mut Vec<String>, arg: &str)
    ensures
        texts(final(args)@) == texts(old(args)@).push(arg@),
{
    let owned = String::from_str(arg);
    args.push(owned);
    assert(texts(args@) =~= texts(old(args)@).push(arg@));
}

/// Appends the encoder settings of a format.
fn push_profile(args: &mut Vec<String>, format: VideoFormat)
    ensures
        texts(final(args)@) == texts(old(args)@) + encoding_profile(format),
{
    match format {
        VideoFormat::MP4 => {
            push_arg(args, "-c:v");
            push_arg(args, "libx264");
            push_arg(args, "-preset");
            push_arg(args, "medium");
            push_arg(args, "-crf");
            push_arg(args, "23");
            push_arg(args, "-c:a");
            push_arg(args, "aac");
            push_arg(args, "-b:a");
            push_arg(args, "128k");
        },
        VideoFormat::MKV => {
            push_arg(args, "-c:v");
            push_arg(args, "libx264");
            push_arg(args, "-preset");
            push_arg(args, "slow");
            push_arg(args, "-crf");
            push_arg(args, "18");
            push_arg(args, "-c:a");
            push_arg(args, "copy");
        },
        VideoFormat::AVI => {
            push_arg(args, "-c:v");
            push_arg(args, "mpeg4");
            push_arg(args, "-q:v");
            push_arg(args, "6");
            push_arg(args, "-c:a");
            push_arg(args, "libmp3lame");
            push_arg(args, "-q:a");
            push_arg(args, "4");
        },
        VideoFormat::MOV => {
            push_arg(args, "-c:v");
            push_arg(args, "prores_ks");
            push_arg(args, "-profile:v");
            push_arg(args, "3");
            push_arg(args, "-c:a");
            push_arg(args, "pcm_s16le");
        },
        VideoFormat::WEBM => {
            push_arg(args, "-c:v");
            push_arg(args, "libvpx-vp9");
            push_arg(args, "-crf");
            push_arg(args, "30");
            push_arg(args, "-b:v");
            push_arg(args, "0");
            push_arg(args, "-c:a");
            push_arg(args, "libopus");
            push_arg(args, "-b:a");
            push_arg(args, "96k");
        },
    }
    assert(texts(args@) =~= texts(old(args)@) + encoding_profile(format));
}

/// Builds the command that converts.
pub fn conversion_command(source: &str, format: VideoFormat, output: &str) -> (r: CommandLine)
    ensures
        r@ == conversion_command_view(source@, format, output@),
{
    let mut args: Vec<String> = Vec::new();
    assert(texts(args@) =~= Seq::empty());
    push_arg(&mut args, "-i");
    push_arg(&mut args, source);
    push_arg(&mut args, "-y");
    push_profile(&mut args, format);
    push_arg(&mut args, "-progress");
    push_arg(&mut args, "pipe:1");
    push_arg(&mut args, output);
    assert(texts(args@) =~= conversion_command_view(source@, format, output@).args);
    CommandLine { program: String::from_str("ffmpeg"), args }
}

/// Builds the command that asks for a file's duration.
pub fn duration_command(source: &str) -> (r: CommandLine)
    ensures
        r@ == duration_command_view(source@),
{
    let mut args: Vec<String> = Vec::new();
    assert(texts(args@) =~= Seq::empty());
    push_arg(&mut args, "-v");
    push_arg(&mut args, "error");
    push_arg(&mut args, "-show_entries");
    push_arg(&mut args, "format=duration");
    push_arg(&mut args, "-of");
    push_arg(&mut args, "default=noprint_wrappers=1:nokey=1");
    push_arg(&mut args, source);
    assert(texts(args@) =~= duration_command_view(source@).args);
    CommandLine { program: String::from_str("ffprobe"), args }
}

/// Builds the command that asks the tool for its version.
pub fn version_command() -> (r: CommandLine)
    ensures
        r@ == version_command_view(),
{
    let mut args: Vec<String> = Vec::new();
    assert(texts(args@) =~= Seq::empty());
    push_arg(&mut args, "-version");
    assert(texts(args@) =~= version_command_view().args);
    CommandLine { program: String::from_str("ffmpeg"), args }
}

/// How an attempt to run a program ended.
#[derive(Debug)]
pub enum LaunchOutcome {
    /// The program ran.
    Ran,
    /// There is no such program on the host.
    NotFound,
    /// The program could not be launched for another reason.
    Failed(String),
}

/// Whether a byte is ASCII white space.
pub open spec fn is_space(b: u8) -> bool {
    b == 32 || (9 <= b <= 13)
}

/// A text without the white space at its start.
pub open spec fn trim_start(s: Seq<u8>) -> Seq<u8>
    decreases s.len(),
{
    if s.len() > 0 && is_space(s[0]) {
        trim_start(s.drop_first())
    } else {
        s
    }
}

/// A text without the white space at its end.
pub open spec fn trim_end(s: Seq<u8>) -> Seq<u8>
    decreases s.len(),
{
    if s.len() > 0 && is_space(s.last()) {
        trim_end(s.drop_last())
    } else {
        s
    }
}

/// A text without the white space at either end.
pub open spec fn trimmed(s: Seq<u8>) -> Seq<u8> {
    trim_end(trim_start(s))
}

/// Cuts the white space off both ends of a text.
pub fn trim(s: &[u8]) -> (r: &[u8])
    ensures
        r@ == trimmed(s@),
{
    let n = s.len();
    let mut start: usize = 0;
    assert(s@.subrange(0, n as int) =~= s@);
    while start < n && (s[start] == 32 || (s[start] >= 9 && s[start] <= 13))
        invariant
            n == s@.len(),
            start <= n,
            trim_start(s@) == trim_start(s@.subrange(start as int, n as int)),
        decreases n - start,
    {
        assert(s@.subrange(start as int, n as int).drop_first() =~= s@.subrange(
            start + 1,
            n as int,
        ));
        start = start + 1;
    }
    let mut end: usize = n;
    while end > start && (s[end - 1] == 32 || (s[end - 1] >= 9 && s[end - 1] <= 13))
        invariant
            n == s@.len(),
            start <= end <= n,
            trim_start(s@) == s@.subrange(start as int, n as int),
            trimmed(s@) == trim_end(s@.subrange(start as int, end as int)),
        decreases end - start,
    {
        assert(s@.subrange(start as int, end as int).drop_last() =~= s@.subrange(
            start as int,
            end - 1,
        ));
        end = end - 1;
    }
    slice_subrange(s, start, end)
}

/// What the duration query handed back.
#[derive(Debug)]
pub enum DurationQuery {
    /// The query ran: whether it succeeded, its exit code if it has one, and
    /// what it printed.
    Output { success: bool, code: Option<i32>, stdout: Vec<u8> },
    /// The query could not be launched.
    LaunchFailed(String),
}

/// What one line of the tool's progress output says.
#[derive(Debug, Clone, Copy, PartialEq, Eq, Structural)]
pub enum ProgressLine {
    /// The time processed so far.
    OutTime(u64),
    /// The total duration, in milliseconds.
    Duration(u64),
    /// The tool is done.
    End,
    /// Anything else, malformed lines too: such a line is dropped.
    Other,
}

/// Whether a text starts with another.
pub open spec fn has_prefix(line: Seq<u8>, prefix: Seq<u8>) -> bool {
    line.len() >= prefix.len() && line.subrange(0, prefix.len() as int) == prefix
}

/// The meaning of a progress line. `out_time_ms=` is followed by the time
/// processed, of which the whole units count; `duration=` by the duration in
/// seconds, which is kept in milliseconds; `progress=end` is the end marker.
pub open spec fn line_meaning(line: Seq<u8>) -> ProgressLine {
    if has_prefix(line, ascii("out_time_ms="@)) {
        match whole_units(line.subrange(12, line.len() as int)) {
            Some(t) => ProgressLine::OutTime(t),
            None => ProgressLine::Other,
        }
    } else if has_prefix(line, ascii("duration="@)) {
        match thousandths(line.subrange(9, line.len() as int)) {
            Some(ms) => ProgressLine::Duration(ms),
            None => ProgressLine::Other,
        }
    } else if line == ascii("progress=end"@) {
        ProgressLine::End
    } else {
        ProgressLine::Other
    }
}

/// Tests whether a text starts with another.
fn starts_with(line: &[u8], prefix: &[u8]) -> (r: bool)
    ensures
        r == has_prefix(line@, prefix@),
{
    let n = prefix.len();
    if line.len() < n {
        return false;
    }
    let mut i: usize = 0;
    while i < n
        invariant
            n == prefix@.len(),
            n <= line@.len(),
            i <= n,
            forall|k: int| 0 <= k < i ==> line@[k] == prefix@[k],
        decreases n - i,
    {
        if line[i] != prefix[i] {
            assert(line@.subrange(0, n as int)[i as int] != prefix@[i as int]);
            return false;
        }
        i = i + 1;
    }
    assert(line@.subrange(0, n as int) =~= prefix@);
    true
}

/// Reads one line of the tool's progress output.
pub fn classify_progress_line(line: &[u8]) -> (r: ProgressLine)
    ensures
        r == line_meaning(line@),
{
    proof {
        reveal_strlit("out_time_ms=");
        reveal_strlit("duration=");
        reveal_strlit("progress=end");
    }
    let n = line.len();
    let time_key = ascii_bytes("out_time_ms=");
    let duration_key = ascii_bytes("duration=");
    let end_marker = ascii_bytes("progress=end");
    assert(time_key@.len() == 12 && duration_key@.len() == 9 && end_marker@.len() == 12);
    if n == 12 {
        assert(line@.subrange(0, 12) =~= line@);
    }
    if starts_with(line, time_key) {
        match parse_thousandths(slice_subrange(line, 12, n)) {
            Some(v) => ProgressLine::OutTime(v / 1000),
            None => ProgressLine::Other,
        }
    } else if starts_with(line, duration_key) {
        match parse_thousandths(slice_subrange(line, 9, n)) {
            Some(ms) => ProgressLine::Duration(ms),
            None => ProgressLine::Other,
        }
    } else if n == 12 && starts_with(line, end_marker) {
        ProgressLine::End
    } else {
        ProgressLine::Other
    }
}

/// A duration query with its bytes and text as sequences.
pub ghost enum DurationQueryView {
    Output { success: bool, code: Option<i32>, stdout: Seq<u8> },
    LaunchFailed(Seq<char>),
}

impl View for DurationQuery {
    type V = DurationQueryView;

    open spec fn view(&self) -> DurationQueryView {
        match self {
            DurationQuery::Output { success, code, stdout } => DurationQueryView::Output {
                success: *success,
                code: *code,
                stdout: stdout@,
            },
            DurationQuery::LaunchFailed(e) => DurationQueryView::LaunchFailed(e@),
        }
    }
}

/// The duration that a query found, in milliseconds: what a successful query
/// printed, white space cut off, read as a numeral of seconds.
pub open spec fn duration_found(query: DurationQueryView) -> Option<u64> {
    match query {
        DurationQueryView::Output { success, code, stdout } => if success {
            thousandths(trimmed(stdout))
        } else {
            None
        },
        DurationQueryView::LaunchFailed(_) => None,
    }
}

/// The duration to work with: zero stands for an unknown one.
pub open spec fn duration_or_zero(query: DurationQueryView) -> u64 {
    match duration_found(query) {
        Some(ms) => ms,
        None => 0,
    }
}

/// The percent done once `time` of `duration` is processed, 100 at most.
/// Without a duration it is zero.
pub open spec fn progress_percent(time: u64, duration: u64) -> nat {
    if duration == 0 {
        0
    } else if time * 100 / (duration as int) > 100 {
        100
    } else {
        (time * 100 / (duration as int)) as nat
    }
}

/// For one duration the percent never falls as the time grows.
pub proof fn lemma_progress_percent_monotone(earlier: u64, later: u64, duration: u64)
    requires
        earlier <= later,
    ensures
        progress_percent(earlier, duration) <= progress_percent(later, duration) <= 100,
{
    if duration > 0 {
        assert(earlier * 100 / (duration as int) <= later * 100 / (duration as int))
            by (nonlinear_arith)
            requires
                earlier <= later,
                duration > 0,
        ;
        assert(0 <= earlier * 100 / (duration as int)) by (nonlinear_arith)
            requires
                earlier >= 0,
                duration > 0,
        ;
    }
}

/// Computes the percent done.
pub fn percent_done(time: u64, duration: u64) -> (r: u8)
    ensures
        r == progress_percent(time, duration),
        r <= 100,
{
    if duration == 0 {
        0
    } else {
        let scaled: u128 = (time as u128) * 100 / (duration as u128);
        assert(scaled == time * 100 / (duration as int));
        if scaled > 100 {
            100
        } else {
            scaled as u8
        }
    }
}

/// The digits after the point for a number of thousandths below 1000,
/// without zeros at the end.
pub open spec fn fraction_text(f: nat) -> Seq<char> {
    if f % 100 == 0 {
        seq![digit_char(f / 100)]
    } else if f % 10 == 0 {
        seq![digit_char(f / 100), digit_char(f / 10 % 10)]
    } else {
        seq![digit_char(f / 100), digit_char(f / 10 % 10), digit_char(f % 10)]
    }
}

/// A number of milliseconds written in seconds: whole seconds alone where
/// there is no fraction, else with the fraction after a point.
pub open spec fn seconds_text(ms: u64) -> Seq<char> {
    if ms % 1000 == 0 {
        decimal((ms / 1000) as nat)
    } else {
        decimal((ms / 1000) as nat) + seq!['.'] + fraction_text((ms % 1000) as nat)
    }
}

/// Writes a number of milliseconds in seconds.
pub fn seconds_string(ms: u64) -> (r: String)
    ensures
        r@ == seconds_text(ms),
{
    let mut text = decimal_string((ms / 1000) as u128);
    let f = ms % 1000;
    if f != 0 {
        proof {
            reveal_strlit(".");
        }
        text.append(".");
        let hundreds = decimal_string((f / 100) as u128);
        text.append(hundreds.as_str());
        if f % 100 != 0 {
            let tens = decimal_string((f / 10 % 10) as u128);
            text.append(tens.as_str());
            if f % 10 != 0 {
                let ones = decimal_string((f % 10) as u128);
                text.append(ones.as_str());
            }
        }
        assert(text@ =~= seconds_text(ms));
    }
    text
}

/// Where a run of the external tool stands: what it waits for.
#[derive(Debug, Clone, Copy, PartialEq, Eq, Structural)]
pub enum FFmpegStage {
    /// No run was started.
    Idle,
    ProbingDuration,
    Spawning,
    Reading,
    Waiting,
    /// The tool exited well, and the completion was reported.
    Complete,
    /// The run ended with an error.
    Failed,
}

/// How the tool's process ended.
#[derive(Debug, Clone, Copy, PartialEq, Eq, Structural)]
pub enum ProcessExit {
    Success,
    /// The process exited with this code, which says that it failed.
    Code(i32),
    /// A signal ended the process.
    Signal,
}

/// What the caller does next.
#[derive(Debug)]
pub enum FFmpegRequest {
    /// Run the duration query and hand back what it printed.
    ProbeDuration(CommandLine),
    /// Start the tool with its standard output piped.
    Spawn(CommandLine),
    /// Read the next line of the tool's standard output.
    ReadLine,
    /// Wait for the tool to exit.
    Wait,
    /// The run is over.
    Stop,
}

/// A request with its texts as character sequences.
pub ghost enum FFmpegRequestView {
    ProbeDuration(CommandView),
    Spawn(CommandView),
    ReadLine,
    Wait,
    Stop,
}

impl View for FFmpegRequest {
    type V = FFmpegRequestView;

    open spec fn view(&self) -> FFmpegRequestView {
        match self {
            FFmpegRequest::ProbeDuration(c) => FFmpegRequestView::ProbeDuration(c@),
            FFmpegRequest::Spawn(c) => FFmpegRequestView::Spawn(c@),
            FFmpegRequest::ReadLine => FFmpegRequestView::ReadLine,
            FFmpegRequest::Wait => FFmpegRequestView::Wait,
            FFmpegRequest::Stop => FFmpegRequestView::Stop,
        }
    }
}

/// How the last request ended.
#[derive(Debug)]
pub enum FFmpegReply {
    /// What the duration query handed back.
    Probed(DurationQuery),
    /// The tool was started.
    Spawned,
    /// One line of the tool's output, without its line end.
    Line(Vec<u8>),
    /// The tool's output has ended.
    EndOfStream,
    /// The tool has exited.
    Exited(ProcessExit),
    /// The request failed; the text says why.
    Failed(String),
}

/// A reply with its bytes and texts as sequences.
pub ghost enum FFmpegReplyView {
    Probed(DurationQueryView),
    Spawned,
    Line(Seq<u8>),
    EndOfStream,
    Exited(ProcessExit),
    Failed(Seq<char>),
}

impl View for FFmpegReply {
    type V = FFmpegReplyView;

    open spec fn view(&self) -> FFmpegReplyView {
        match self {
            FFmpegReply::Probed(q) => FFmpegReplyView::Probed(q@),
            FFmpegReply::Spawned => FFmpegReplyView::Spawned,
            FFmpegReply::Line(l) => FFmpegReplyView::Line(l@),
            FFmpegReply::EndOfStream => FFmpegReplyView::EndOfStream,
            FFmpegReply::Exited(e) => FFmpegReplyView::Exited(*e),
            FFmpegReply::Failed(e) => FFmpegReplyView::Failed(e@),
        }
    }
}

/// What one step asks of the caller: hand on the reports, then perform the
/// request.
#[derive(Debug)]
pub struct FFmpegStep {
    pub events: Vec<ConversionProgress>,
    pub request: FFmpegRequest,
}

/// The state of a run, with its texts as character sequences.
pub ghost struct FFmpegState {
    pub stage: FFmpegStage,
    pub source: Seq<char>,
    pub format: VideoFormat,
    pub output: Seq<char>,
    /// The duration in milliseconds; zero while it is unknown.
    pub duration_ms: u64,
    pub time_ms: u64,
    /// The percent of the last report.
    pub percent: u8,
    /// Whether the completion was reported.
    pub completed: bool,
}

/// What one step yields: the state after it and what it asks of the caller.
pub ghost struct FFmpegOutcome {
    pub next: FFmpegState,
    pub events: Seq<ProgressView>,
    pub request: FFmpegRequestView,
}

/// The outcome of a step that ends the run with an error report. The report
/// keeps the percent reached.
pub open spec fn ffmpeg_failure(s: FFmpegState, step: Seq<char>, error: Seq<char>) -> FFmpegOutcome {
    FFmpegOutcome {
        next: FFmpegState { stage: FFmpegStage::Failed, ..s },
        events: seq![failure_report(s.source, s.format, s.output, s.percent, step, error)],
        request: FFmpegRequestView::Stop,
    }
}

/// The outcome of a step that goes on without a report.
pub open spec fn ffmpeg_silent(s: FFmpegState, request: FFmpegRequestView) -> FFmpegOutcome {
    FFmpegOutcome { next: s, events: Seq::empty(), request }
}

/// The text of the report on the duration.
pub open spec fn duration_text(ms: u64) -> Seq<char> {
    "Analyzing video file... Duration: "@ + seconds_text(ms) + " seconds"@
}

/// The text of a report on the time processed.
pub open spec fn converting_text(percent: u8) -> Seq<char> {
    "Converting video... "@ + decimal(percent as nat) + "%"@
}

/// The outcome of the step that takes the duration: it is reported, zero for
/// an unknown one, and the tool is to be started.
pub open spec fn probed_step(s: FFmpegState, duration: u64) -> FFmpegOutcome {
    FFmpegOutcome {
        next: FFmpegState { stage: FFmpegStage::Spawning, duration_ms: duration, ..s },
        events: seq![
            progress_report(s.source, s.format, s.output, s.percent, duration_text(duration)),
        ],
        request: FFmpegRequestView::Spawn(conversion_command_view(s.source, s.format, s.output)),
    }
}

/// The percent to report for a time: the percent done, but never less than
/// was reported before.
pub open spec fn reported_percent(s: FFmpegState, time: u64) -> u8 {
    if progress_percent(time, s.duration_ms) < s.percent {
        s.percent
    } else {
        progress_percent(time, s.duration_ms) as u8
    }
}

/// The outcome of the step that takes a line of the tool's output. A time
/// is reported as a percent once the duration is known, and the percent
/// reported never falls; a duration is kept; the end marker completes the
/// conversion; any other line is dropped.
pub open spec fn line_step(s: FFmpegState, line: Seq<u8>) -> FFmpegOutcome {
    match line_meaning(line) {
        ProgressLine::OutTime(t) => if s.duration_ms > 0 {
            let percent = reported_percent(s, t);
            FFmpegOutcome {
                next: FFmpegState { time_ms: t, percent, ..s },
                events: seq![
                    progress_report(s.source, s.format, s.output, percent, converting_text(percent)),
                ],
                request: FFmpegRequestView::ReadLine,
            }
        } else {
            ffmpeg_silent(FFmpegState { time_ms: t, ..s }, FFmpegRequestView::ReadLine)
        },
        ProgressLine::Duration(ms) => ffmpeg_silent(
            FFmpegState { duration_ms: ms, ..s },
            FFmpegRequestView::ReadLine,
        ),
        ProgressLine::End => FFmpegOutcome {
            next: FFmpegState { stage: FFmpegStage::Waiting, percent: 100, completed: true, ..s },
            events: seq![completion_report(s.source, s.format, s.output)],
            request: FFmpegRequestView::Wait,
        },
        ProgressLine::Other => ffmpeg_silent(s, FFmpegRequestView::ReadLine),
    }
}

/// The outcome of the step that takes the tool's exit. A good exit
/// completes the run: the completion is reported now, unless the end marker
/// had it reported before. A bad exit ends the run with an error report that
/// tells an exit code from a signal.
pub open spec fn exit_step(s: FFmpegState, exit: ProcessExit) -> FFmpegOutcome {
    match exit {
        ProcessExit::Success => if s.completed {
            ffmpeg_silent(
                FFmpegState { stage: FFmpegStage::Complete, ..s },
                FFmpegRequestView::Stop,
            )
        } else {
            FFmpegOutcome {
                next: FFmpegState {
                    stage: FFmpegStage::Complete,
                    percent: 100,
                    completed: true,
                    ..s
                },
                events: seq![completion_report(s.source, s.format, s.output)],
                request: FFmpegRequestView::Stop,
            }
        },
        ProcessExit::Code(code) => ffmpeg_failure(
            s,
            "FFmpeg failed with exit code: "@ + signed_decimal(code as int),
            FFmpegError::ProcessError(code).text(),
        ),
        ProcessExit::Signal => ffmpeg_failure(
            s,
            FFmpegError::ProcessTerminated.text(),
            FFmpegError::ProcessTerminated.text(),
        ),
    }
}

/// The step function of the external-tool backend. A run that is over, or
/// was not started, stays as it is. The duration query never fails the run:
/// without a duration no percent is reported. A tool that cannot be started,
/// read from or waited for ends the run with an error report. A reply that
/// does not answer the request ends the run.
pub open spec fn ffmpeg_step(s: FFmpegState, reply: FFmpegReplyView) -> FFmpegOutcome {
    match (s.stage, reply) {
        (FFmpegStage::Idle, _)
        | (FFmpegStage::Complete, _)
        | (FFmpegStage::Failed, _) => ffmpeg_silent(s, FFmpegRequestView::Stop),
        (FFmpegStage::ProbingDuration, FFmpegReplyView::Probed(q)) => probed_step(
            s,
            duration_or_zero(q),
        ),
        (FFmpegStage::ProbingDuration, FFmpegReplyView::Failed(_)) => probed_step(s, 0),
        (FFmpegStage::Spawning, FFmpegReplyView::Spawned) => ffmpeg_silent(
            FFmpegState { stage: FFmpegStage::Reading, ..s },
            FFmpegRequestView::ReadLine,
        ),
        (FFmpegStage::Spawning, FFmpegReplyView::Failed(e)) => ffmpeg_failure(
            s,
            "Failed to start FFmpeg: "@ + e,
            "Failed to start FFmpeg: "@ + e,
        ),
        (FFmpegStage::Reading, FFmpegReplyView::Line(line)) => line_step(s, line),
        (FFmpegStage::Reading, FFmpegReplyView::Failed(e)) => ffmpeg_failure(
            s,
            "Error reading FFmpeg output: "@ + e,
            "Error reading FFmpeg output: "@ + e,
        ),
        (FFmpegStage::Reading, FFmpegReplyView::EndOfStream) => ffmpeg_silent(
            FFmpegState { stage: FFmpegStage::Waiting, ..s },
            FFmpegRequestView::Wait,
        ),
        (FFmpegStage::Waiting, FFmpegReplyView::Exited(exit)) => exit_step(s, exit),
        (FFmpegStage::Waiting, FFmpegReplyView::Failed(e)) => ffmpeg_failure(
            s,
            "Error waiting for FFmpeg: "@ + e,
            "Error waiting for FFmpeg: "@ + e,
        ),
        _ => ffmpeg_failure(s, unexpected_reply_text(), unexpected_reply_text()),
    }
}

/// The text of the error report for a reply that does not answer the request.
pub open spec fn unexpected_reply_text() -> Seq<char> {
    "Failed to execute FFmpeg: "@ + "unexpected reply"@
}

/// What holds of every run: the percent is 100 at most; once the completion
/// is reported the percent is 100 and no more lines are read; and nothing is
/// reported before the tool runs.
pub open spec fn ffmpeg_state_ok(s: FFmpegState) -> bool {
    &&& s.percent <= 100
    &&& s.completed ==> s.percent == 100 && (s.stage == FFmpegStage::Waiting || s.stage
        == FFmpegStage::Complete || s.stage == FFmpegStage::Failed)
    &&& s.stage == FFmpegStage::Complete ==> s.completed
    &&& (s.stage == FFmpegStage::Idle || s.stage == FFmpegStage::ProbingDuration || s.stage
        == FFmpegStage::Spawning) ==> s.percent == 0 && !s.completed
}

/// Whether a reply is the end marker, read while lines are read.
pub open spec fn reads_end_marker(s: FFmpegState, reply: FFmpegReplyView) -> bool {
    &&& s.stage == FFmpegStage::Reading
    &&& reply matches FFmpegReplyView::Line(line)
    &&& line_meaning(line) == ProgressLine::End
}

/// Whether a reply is the good exit of a tool that did not report its end.
pub open spec fn exits_well_unreported(s: FFmpegState, reply: FFmpegReplyView) -> bool {
    &&& s.stage == FFmpegStage::Waiting
    &&& !s.completed
    &&& reply == FFmpegReplyView::Exited(ProcessExit::Success)
}

/// Within a run the percent never falls. Every step issues one report at
/// most. The completion report is issued for the end marker, or for the good
/// exit of a tool that did not report its end, and for nothing else; it is
/// at 100 percent. The step that fails the run issues an error report
/// without the completion flag, and no other step issues an error report.
pub proof fn lemma_ffmpeg_step_progress(s: FFmpegState, reply: FFmpegReplyView)
    requires
        ffmpeg_state_ok(s),
    ensures
        ffmpeg_state_ok(ffmpeg_step(s, reply).next),
        ffmpeg_step(s, reply).events.len() <= 1,
        rising_from(s.percent, ffmpeg_step(s, reply).events),
        s.percent <= ffmpeg_step(s, reply).next.percent <= 100,
        forall|i: int|
            0 <= i < ffmpeg_step(s, reply).events.len() ==> (#[trigger] ffmpeg_step(
                s,
                reply,
            ).events[i]).percent == ffmpeg_step(s, reply).next.percent,
        ffmpeg_step(s, reply).request == FFmpegRequestView::Stop <==> (ffmpeg_step(s, reply).next.stage
            == FFmpegStage::Complete || ffmpeg_step(s, reply).next.stage == FFmpegStage::Failed
            || ffmpeg_step(s, reply).next.stage == FFmpegStage::Idle),
        (exists|i: int|
            0 <= i < ffmpeg_step(s, reply).events.len() && (#[trigger] ffmpeg_step(
                s,
                reply,
            ).events[i]).is_complete) <==> (reads_end_marker(s, reply) || exits_well_unreported(
            s,
            reply,
        )),
        forall|i: int|
            0 <= i < ffmpeg_step(s, reply).events.len() && (#[trigger] ffmpeg_step(
                s,
                reply,
            ).events[i]).is_complete ==> ffmpeg_step(s, reply).events[i].percent == 100
                && !ffmpeg_step(s, reply).events[i].has_error,
        (exists|i: int|
            0 <= i < ffmpeg_step(s, reply).events.len() && (#[trigger] ffmpeg_step(
                s,
                reply,
            ).events[i]).has_error) <==> (s.stage != FFmpegStage::Failed && ffmpeg_step(
            s,
            reply,
        ).next.stage == FFmpegStage::Failed),
{
    let out = ffmpeg_step(s, reply);
    if out.events.len() == 1 {
        assert(out.events[0].percent == out.next.percent);
        if out.events[0].has_error {
            assert(out.next.stage == FFmpegStage::Failed);
        }
    }
    if s.stage != FFmpegStage::Failed && out.next.stage == FFmpegStage::Failed {
        assert(out.events.len() == 1 && out.events[0].has_error);
    }
    if reads_end_marker(s, reply) || exits_well_unreported(s, reply) {
        assert(out.events[0].is_complete);
    }
}

/// The state of a run after a list of replies, taken one step each.
pub open spec fn ffmpeg_after(s: FFmpegState, replies: Seq<FFmpegReplyView>) -> FFmpegState
    decreases replies.len(),
{
    if replies.len() == 0 {
        s
    } else {
        ffmpeg_step(ffmpeg_after(s, replies.drop_last()), replies.last()).next
    }
}

/// The reports of a run over a list of replies, in the order issued.
pub open spec fn ffmpeg_trace(s: FFmpegState, replies: Seq<FFmpegReplyView>) -> Seq<ProgressView>
    decreases replies.len(),
{
    if replies.len() == 0 {
        Seq::empty()
    } else {
        ffmpeg_trace(s, replies.drop_last()) + ffmpeg_step(
            ffmpeg_after(s, replies.drop_last()),
            replies.last(),
        ).events
    }
}

/// Whether a run is under way: started and not over.
pub open spec fn ffmpeg_live(s: FFmpegState) -> bool {
    s.stage == FFmpegStage::ProbingDuration || s.stage == FFmpegStage::Spawning || s.stage
        == FFmpegStage::Reading || s.stage == FFmpegStage::Waiting
}

/// Whether a list of reports holds one report of completion at most, at 100
/// percent and without an error, and one error report at most, which is then
/// the last and does not carry the completion flag.
pub open spec fn ends_once(events: Seq<ProgressView>) -> bool {
    &&& forall|i: int, j: int|
        0 <= i < events.len() && 0 <= j < events.len() && (#[trigger] events[i]).is_complete && (
        #[trigger] events[j]).is_complete ==> i == j
    &&& forall|i: int|
        0 <= i < events.len() && (#[trigger] events[i]).is_complete ==> events[i].percent == 100
            && !events[i].has_error
    &&& forall|i: int|
        0 <= i < events.len() && (#[trigger] events[i]).has_error ==> i == events.len() - 1
}

/// Whether the last report of a list reports an error, without the
/// completion flag.
pub open spec fn last_is_error(events: Seq<ProgressView>) -> bool {
    events.len() > 0 && events.last().has_error && !events.last().is_complete
}

/// Whatever the tool does, the reports of a run of the external-tool backend
/// never fall in percent, and a run that is over has ended in one of two
/// ways. A run that has completed has issued the report of completion, at
/// 100 percent, as its last and one only, and no error report. A run that
/// has failed has issued an error report as its last, and no other error
/// report. A run still under way has issued no error report.
pub proof fn lemma_ffmpeg_run(s: FFmpegState, replies: Seq<FFmpegReplyView>)
    requires
        ffmpeg_state_ok(s),
        ffmpeg_live(s),
        !s.completed,
    ensures
        ffmpeg_state_ok(ffmpeg_after(s, replies)),
        ffmpeg_after(s, replies).stage != FFmpegStage::Idle,
        s.percent <= ffmpeg_after(s, replies).percent <= 100,
        non_decreasing(ffmpeg_trace(s, replies)),
        forall|i: int|
            0 <= i < ffmpeg_trace(s, replies).len() ==> s.percent <= (#[trigger] ffmpeg_trace(
                s,
                replies,
            )[i]).percent <= ffmpeg_after(s, replies).percent,
        ends_once(ffmpeg_trace(s, replies)),
        ffmpeg_after(s, replies).completed <==> exists|i: int|
            0 <= i < ffmpeg_trace(s, replies).len() && (#[trigger] ffmpeg_trace(
                s,
                replies,
            )[i]).is_complete,
        ffmpeg_after(s, replies).stage == FFmpegStage::Failed <==> exists|i: int|
            0 <= i < ffmpeg_trace(s, replies).len() && (#[trigger] ffmpeg_trace(
                s,
                replies,
            )[i]).has_error,
        ffmpeg_after(s, replies).stage == FFmpegStage::Complete ==> ends_complete(
            ffmpeg_trace(s, replies),
        ),
        ffmpeg_after(s, replies).stage == FFmpegStage::Failed ==> last_is_error(
            ffmpeg_trace(s, replies),
        ),
        ffmpeg_after(s, replies).completed && ffmpeg_after(s, replies).stage
            == FFmpegStage::Waiting ==> ffmpeg_trace(s, replies).len() > 0 && ffmpeg_trace(
            s,
            replies,
        ).last().is_complete,
    decreases replies.len(),
{
    if replies.len() > 0 {
        let before = ffmpeg_after(s, replies.drop_last());
        let head = ffmpeg_trace(s, replies.drop_last());
        let step = ffmpeg_step(before, replies.last());
        let tail = step.events;
        let after = ffmpeg_after(s, replies);
        let all = ffmpeg_trace(s, replies);
        lemma_ffmpeg_run(s, replies.drop_last());
        lemma_ffmpeg_step_progress(before, replies.last());
        assert(all == head + tail);
        assert(after == step.next);
        lemma_ffmpeg_run_joined(before, replies.last(), head);
        lemma_rising_joined(head, tail, s.percent, before.percent, after.percent);
    }
}

/// A run that is over has moved the request that watched it. Where the run
/// reported completion the request has succeeded, whatever the tool's exit
/// was after that; else the run failed, and the request has gone on to the
/// simulation. So no request stays with an external tool that has ended.
pub proof fn lemma_ffmpeg_run_ends_request(
    s: FFmpegState,
    replies: Seq<FFmpegReplyView>,
    c: ConverterView,
)
    requires
        ffmpeg_state_ok(s),
        ffmpeg_live(s),
        !s.completed,
        c.state == ConverterState::Running(ConversionMode::FFmpeg),
        !ffmpeg_live(ffmpeg_after(s, replies)),
    ensures
        watched(c, ffmpeg_trace(s, replies)).state == (if ffmpeg_after(s, replies).completed {
            ConverterState::Succeeded
        } else {
            ConverterState::Running(ConversionMode::Simulation)
        }),
{
    let events = ffmpeg_trace(s, replies);
    let after = ffmpeg_after(s, replies);
    lemma_ffmpeg_run(s, replies);
    if after.completed {
        assert(reports_completion(events));
        lemma_watched_completion(c, ConversionMode::FFmpeg, events);
    } else {
        assert(after.stage == FFmpegStage::Failed);
        assert(last_is_error(events));
        assert forall|i: int| 0 <= i < events.len() implies ((#[trigger] events[i]).has_error
            <==> i == events.len() - 1) by {}
        assert forall|i: int| 0 <= i < events.len() implies !(#[trigger] events[i]).is_complete by {}
        assert(ends_in_error(events));
        lemma_watched_run(c, ConversionMode::FFmpeg, events);
    }
}

/// Joining a list of reports that lies between two percents with a list that
/// rises from the upper one gives a list that never falls.
proof fn lemma_rising_joined(
    head: Seq<ProgressView>,
    tail: Seq<ProgressView>,
    floor: u8,
    middle: u8,
    top: u8,
)
    requires
        non_decreasing(head),
        forall|i: int| 0 <= i < head.len() ==> floor <= (#[trigger] head[i]).percent <= middle,
        rising_from(middle, tail),
        forall|i: int| 0 <= i < tail.len() ==> (#[trigger] tail[i]).percent <= top,
        floor <= middle <= top,
    ensures
        non_decreasing(head + tail),
        forall|i: int|
            0 <= i < (head + tail).len() ==> floor <= (#[trigger] (head + tail)[i]).percent <= top,
{
    let all = head + tail;
    assert forall|i: int| 0 <= i < all.len() implies floor <= (#[trigger] all[i]).percent
        <= top by {
        if i >= head.len() {
            assert(all[i] == tail[i - head.len()]);
        } else {
            assert(all[i] == head[i]);
        }
    }
    assert forall|i: int, j: int| 0 <= i <= j < all.len() implies (#[trigger] all[i]).percent <= (
    #[trigger] all[j]).percent by {
        if j >= head.len() {
            assert(all[j] == tail[j - head.len()]);
            if i >= head.len() {
                assert(all[i] == tail[i - head.len()]);
            } else {
                assert(all[i] == head[i]);
            }
        } else {
            assert(all[i] == head[i]);
            assert(all[j] == head[j]);
        }
    }
}

/// One more step keeps what `lemma_ffmpeg_run` states of the ends of a run.
proof fn lemma_ffmpeg_run_joined(
    before: FFmpegState,
    reply: FFmpegReplyView,
    head: Seq<ProgressView>,
)
    requires
        ffmpeg_state_ok(before),
        before.stage != FFmpegStage::Idle,
        ends_once(head),
        before.completed <==> exists|i: int| 0 <= i < head.len() && (#[trigger] head[i]).is_complete,
        before.stage == FFmpegStage::Failed <==> exists|i: int|
            0 <= i < head.len() && (#[trigger] head[i]).has_error,
        before.stage == FFmpegStage::Complete ==> ends_complete(head),
        before.stage == FFmpegStage::Failed ==> last_is_error(head),
        before.completed && before.stage == FFmpegStage::Waiting ==> head.len() > 0
            && head.last().is_complete,
    ensures
        ffmpeg_step(before, reply).next.completed && ffmpeg_step(before, reply).next.stage
            == FFmpegStage::Waiting ==> (head + ffmpeg_step(before, reply).events).len() > 0 && (head
            + ffmpeg_step(before, reply).events).last().is_complete,
        ffmpeg_step(before, reply).next.stage != FFmpegStage::Idle,
        ends_once(head + ffmpeg_step(before, reply).events),
        ffmpeg_step(before, reply).next.completed <==> exists|i: int|
            0 <= i < (head + ffmpeg_step(before, reply).events).len() && (#[trigger] (head
                + ffmpeg_step(before, reply).events)[i]).is_complete,
        ffmpeg_step(before, reply).next.stage == FFmpegStage::Failed <==> exists|i: int|
            0 <= i < (head + ffmpeg_step(before, reply).events).len() && (#[trigger] (head
                + ffmpeg_step(before, reply).events)[i]).has_error,
        ffmpeg_step(before, reply).next.stage == FFmpegStage::Complete ==> ends_complete(
            head + ffmpeg_step(before, reply).events,
        ),
        ffmpeg_step(before, reply).next.stage == FFmpegStage::Failed ==> last_is_error(
            head + ffmpeg_step(before, reply).events,
        ),
{
    let step = ffmpeg_step(before, reply);
    let tail = step.events;
    let all = head + tail;
    lemma_ffmpeg_step_progress(before, reply);
    assert forall|i: int| 0 <= i < all.len() implies (#[trigger] all[i]) == (if i < head.len() {
        head[i]
    } else {
        tail[i - head.len()]
    }) by {}
    if tail.len() == 0 {
        assert(all =~= head);
        if step.next.stage == FFmpegStage::Complete && before.stage != FFmpegStage::Complete {
            // The tool exited well after the end marker had the completion reported.
            assert(before.stage == FFmpegStage::Waiting && before.completed);
            assert(head.last().is_complete);
        }
    } else {
        assert(tail.len() == 1);
        assert(all.last() == tail[0]);
        if before.stage == FFmpegStage::Failed || before.stage == FFmpegStage::Complete {
            assert(false);
        }
        assert forall|i: int| 0 <= i < head.len() implies !(#[trigger] head[i]).has_error by {}
        if tail[0].is_complete {
            assert(reads_end_marker(before, reply) || exits_well_unreported(before, reply));
            assert(!before.completed);
            assert forall|i: int| 0 <= i < head.len() implies !(#[trigger] head[i]).is_complete by {}
            assert(all[all.len() - 1].is_complete);
        } else {
            if before.completed {
                let k = choose|i: int| 0 <= i < head.len() && (#[trigger] head[i]).is_complete;
                assert(all[k].is_complete);
            }
        }
        if tail[0].has_error {
            assert(all[all.len() - 1].has_error);
        }
    }
}

/// The counters of a run.
#[derive(Debug, Clone, Copy)]
struct FFmpegCounters {
    stage: FFmpegStage,
    duration_ms: u64,
    time_ms: u64,
    percent: u8,
    completed: bool,
}

/// The external-tool backend, between two steps of a run.
#[derive(Debug)]
pub struct FFmpegConverter {
    source_file: String,
    target_format: VideoFormat,
    output_file: String,
    run: FFmpegCounters,
}

impl View for FFmpegConverter {
    type V = FFmpegState;

    closed spec fn view(&self) -> FFmpegState {
        FFmpegState {
            stage: self.run.stage,
            source: self.source_file@,
            format: self.target_format,
            output: self.output_file@,
            duration_ms: self.run.duration_ms,
            time_ms: self.run.time_ms,
            percent: self.run.percent,
            completed: self.run.completed,
        }
    }
}

impl FFmpegConverter {
    #[verifier::type_invariant]
    spec fn state_ok(self) -> bool {
        ffmpeg_state_ok(self@)
    }

    /// A backend with no run started.
    pub fn new() -> (r: FFmpegConverter)
        ensures
            r@ == (FFmpegState {
                stage: FFmpegStage::Idle,
                source: Seq::<char>::empty(),
                format: VideoFormat::MP4,
                output: Seq::<char>::empty(),
                duration_ms: 0,
                time_ms: 0,
                percent: 0,
                completed: false,
            }),
    {
        FFmpegConverter {
            source_file: String::new(),
            target_format: VideoFormat::MP4,
            output_file: String::new(),
            run: FFmpegCounters {
                stage: FFmpegStage::Idle,
                duration_ms: 0,
                time_ms: 0,
                percent: 0,
                completed: false,
            },
        }
    }

    /// Says whether the tool is on the host, from how the version query
    /// ended: it is there if the query ran, and not there if no program of
    /// that name was found. Any other failure to launch is an error.
    pub fn check_ffmpeg_available(outcome: LaunchOutcome) -> (r: Result<bool, FFmpegError>)
        ensures
            match outcome {
                LaunchOutcome::Ran => r == Ok::<bool, FFmpegError>(true),
                LaunchOutcome::NotFound => r == Ok::<bool, FFmpegError>(false),
                LaunchOutcome::Failed(e) => r matches Err(FFmpegError::ExecutionError(m)) && m@
                    == e@,
            },
    {
        match outcome {
            LaunchOutcome::Ran => Ok(true),
            LaunchOutcome::NotFound => Ok(false),
            LaunchOutcome::Failed(e) => Err(FFmpegError::ExecutionError(e)),
        }
    }

    /// Reads the duration, in milliseconds, from what the duration query
    /// handed back. A query that could not be launched is an execution
    /// error; one that failed is a process error with its exit code, or -1
    /// where it has none; output that is no numeral is invalid input.
    pub fn get_video_duration(query: &DurationQuery) -> (r: Result<u64, FFmpegError>)
        ensures
            match r {
                Ok(ms) => duration_found(query@) == Some(ms),
                Err(e) => duration_found(query@) is None && match query@ {
                    DurationQueryView::LaunchFailed(text) => e matches FFmpegError::ExecutionError(m)
                        && m@ == text,
                    DurationQueryView::Output { success, code, stdout } => if success {
                        e is InvalidInput
                    } else {
                        e matches FFmpegError::ProcessError(c) && c == (match code {
                            Some(k) => k,
                            None => -1i32,
                        })
                    },
                },
            },
    {
        match query {
            DurationQuery::LaunchFailed(e) => Err(
                FFmpegError::ExecutionError(String::from_str(e.as_str())),
            ),
            DurationQuery::Output { success, code, stdout } => {
                if !*success {
                    let status: i32 = match code {
                        Some(k) => *k,
                        None => -1,
                    };
                    return Err(FFmpegError::ProcessError(status));
                }
                match parse_thousandths(trim(stdout.as_slice())) {
                    Some(ms) => Ok(ms),
                    None => Err(FFmpegError::InvalidInput),
                }
            },
        }
    }

    /// The stage that the run is in.
    pub fn stage(&self) -> (r: FFmpegStage)
        ensures
            r == self@.stage,
    {
        self.run.stage
    }

    /// The percent of the last report.
    pub fn percent(&self) -> (r: u8)
        ensures
            r == self@.percent,
            ffmpeg_state_ok(self@),
    {
        proof {
            use_type_invariant(self);
        }
        self.run.percent
    }

    /// Appends one report to a list of reports.
    pub fn send_progress(
        events: &mut Vec<ConversionProgress>,
        percent: u8,
        step: String,
        source_file: &str,
        target_format: VideoFormat,
        output_file: &str,
        is_complete: bool,
        has_error: bool,
        error_message: Option<String>,
    )
        ensures
            trace(final(events)@) == trace(old(events)@).push(
                (ProgressView {
                    percent,
                    step: step@,
                    source: source_file@,
                    format: target_format,
                    output: output_file@,
                    is_complete,
                    has_error,
                    error: opt_chars(error_message),
                    settings: None,
                }),
            ),
    {
        let event = ConversionProgress {
            percent,
            current_step: step,
            source_file: String::from_str(source_file),
            target_format,
            output_file: String::from_str(output_file),
            is_complete,
            has_error,
            error_message,
            video_settings: None,
        };
        proof {
            lemma_trace_push(events@, event);
        }
        events.push(event);
    }

    /// Starts a run. Without a source file there is no run: the error is
    /// `InvalidInput` and the backend stays as it was. Else the run starts
    /// from nothing, reports that it started and asks for the duration.
    pub fn convert(
        &mut self,
        source_file: String,
        target_format: VideoFormat,
        output_file: String,
        source_exists: bool,
    ) -> (r: Result<FFmpegStep, FFmpegError>)
        ensures
            match r {
                Ok(step) => {
                    &&& source_exists
                    &&& final(self)@ == (FFmpegState {
                        stage: FFmpegStage::ProbingDuration,
                        source: source_file@,
                        format: target_format,
                        output: output_file@,
                        duration_ms: 0,
                        time_ms: 0,
                        percent: 0,
                        completed: false,
                    })
                    &&& trace(step.events@) == seq![
                        progress_report(
                            source_file@,
                            target_format,
                            output_file@,
                            0,
                            "Starting FFmpeg conversion..."@,
                        ),
                    ]
                    &&& step.request@ == FFmpegRequestView::ProbeDuration(
                        duration_command_view(source_file@),
                    )
                },
                Err(e) => {
                    &&& !source_exists
                    &&& e is InvalidInput
                    &&& final(self)@ == old(self)@
                },
            },
    {
        if !source_exists {
            return Err(FFmpegError::InvalidInput);
        }
        let mut events: Vec<ConversionProgress> = Vec::new();
        assert(trace(events@) =~= Seq::empty());
        Self::send_progress(
            &mut events,
            0,
            String::from_str("Starting FFmpeg conversion..."),
            source_file.as_str(),
            target_format,
            output_file.as_str(),
            false,
            false,
            None,
        );
        let command = duration_command(source_file.as_str());
        self.run = FFmpegCounters {
            stage: FFmpegStage::ProbingDuration,
            duration_ms: 0,
            time_ms: 0,
            percent: 0,
            completed: false,
        };
        self.source_file = source_file;
        self.target_format = target_format;
        self.output_file = output_file;
        assert(trace(events@) =~= seq![
            progress_report(
                source_file@,
                target_format,
                output_file@,
                0,
                "Starting FFmpeg conversion..."@,
            ),
        ]);
        Ok(FFmpegStep { events, request: FFmpegRequest::ProbeDuration(command) })
    }

    /// Ends the run with an error report.
    fn fail(&mut self, step: String, error: String) -> (r: FFmpegStep)
        ensures
            final(self)@ == ffmpeg_failure(old(self)@, step@, error@).next,
            trace(r.events@) == ffmpeg_failure(old(self)@, step@, error@).events,
            r.request@ == FFmpegRequestView::Stop,
    {
        proof {
            use_type_invariant(&*self);
        }
        let mut events: Vec<ConversionProgress> = Vec::new();
        assert(trace(events@) =~= Seq::empty());
        Self::send_progress(
            &mut events,
            self.run.percent,
            step,
            self.source_file.as_str(),
            self.target_format,
            self.output_file.as_str(),
            false,
            true,
            Some(error),
        );
        assert(trace(events@) =~= ffmpeg_failure(self@, step@, error@).events);
        self.run = FFmpegCounters { stage: FFmpegStage::Failed, ..self.run };
        FFmpegStep { events, request: FFmpegRequest::Stop }
    }

    /// Ends the run with an error report that has one text for both fields.
    fn fail_with(&mut self, prefix: &str, reason: &str) -> (r: FFmpegStep)
        ensures
            final(self)@ == ffmpeg_failure(old(self)@, prefix@ + reason@, prefix@ + reason@).next,
            trace(r.events@) == ffmpeg_failure(
                old(self)@,
                prefix@ + reason@,
                prefix@ + reason@,
            ).events,
            r.request@ == FFmpegRequestView::Stop,
    {
        let step = concat2(prefix, reason);
        let error = concat2(prefix, reason);
        self.fail(step, error)
    }

    /// Goes on without a report.
    fn go_silently(&mut self, run: FFmpegCounters, request: FFmpegRequest) -> (r: FFmpegStep)
        requires
            ffmpeg_state_ok(
                FFmpegState {
                    stage: run.stage,
                    duration_ms: run.duration_ms,
                    time_ms: run.time_ms,
                    percent: run.percent,
                    completed: run.completed,
                    ..old(self)@
                },
            ),
        ensures
            final(self)@ == (FFmpegState {
                stage: run.stage,
                duration_ms: run.duration_ms,
                time_ms: run.time_ms,
                percent: run.percent,
                completed: run.completed,
                ..old(self)@
            }),
            trace(r.events@) == Seq::<ProgressView>::empty(),
            r.request@ == request@,
    {
        let events: Vec<ConversionProgress> = Vec::new();
        assert(trace(events@) =~= Seq::empty());
        self.run = run;
        FFmpegStep { events, request }
    }

    /// Takes the duration and asks for the tool to be started.
    fn take_duration(&mut self, duration: u64) -> (r: FFmpegStep)
        requires
            old(self)@.stage == FFmpegStage::ProbingDuration,
        ensures
            final(self)@ == probed_step(old(self)@, duration).next,
            trace(r.events@) == probed_step(old(self)@, duration).events,
            r.request@ == probed_step(old(self)@, duration).request,
    {
        proof {
            use_type_invariant(&*self);
        }
        let seconds = seconds_string(duration);
        let text = concat3("Analyzing video file... Duration: ", seconds.as_str(), " seconds");
        let mut events: Vec<ConversionProgress> = Vec::new();
        assert(trace(events@) =~= Seq::empty());
        Self::send_progress(
            &mut events,
            self.run.percent,
            text,
            self.source_file.as_str(),
            self.target_format,
            self.output_file.as_str(),
            false,
            false,
            None,
        );
        assert(trace(events@) =~= probed_step(self@, duration).events);
        let command = conversion_command(
            self.source_file.as_str(),
            self.target_format,
            self.output_file.as_str(),
        );
        self.run = FFmpegCounters {
            stage: FFmpegStage::Spawning,
            duration_ms: duration,
            ..self.run
        };
        FFmpegStep { events, request: FFmpegRequest::Spawn(command) }
    }

    /// Takes one line of the tool's output.
    fn take_line(&mut self, line: &[u8]) -> (r: FFmpegStep)
        requires
            old(self)@.stage == FFmpegStage::Reading,
        ensures
            final(self)@ == line_step(old(self)@, line@).next,
            trace(r.events@) == line_step(old(self)@, line@).events,
            r.request@ == line_step(old(self)@, line@).request,
    {
        proof {
            use_type_invariant(&*self);
        }
        match classify_progress_line(line) {
            ProgressLine::OutTime(t) => {
                if self.run.duration_ms > 0 {
                    let done = percent_done(t, self.run.duration_ms);
                    let percent = if done < self.run.percent {
                        self.run.percent
                    } else {
                        done
                    };
                    let digits = decimal_string(percent as u128);
                    let text = concat3("Converting video... ", digits.as_str(), "%");
                    let mut events: Vec<ConversionProgress> = Vec::new();
                    assert(trace(events@) =~= Seq::empty());
                    Self::send_progress(
                        &mut events,
                        percent,
                        text,
                        self.source_file.as_str(),
                        self.target_format,
                        self.output_file.as_str(),
                        false,
                        false,
                        None,
                    );
                    assert(trace(events@) =~= line_step(self@, line@).events);
                    self.run = FFmpegCounters { time_ms: t, percent, ..self.run };
                    FFmpegStep { events, request: FFmpegRequest::ReadLine }
                } else {
                    self.go_silently(
                        FFmpegCounters { time_ms: t, ..self.run },
                        FFmpegRequest::ReadLine,
                    )
                }
            },
            ProgressLine::Duration(ms) => self.go_silently(
                FFmpegCounters { duration_ms: ms, ..self.run },
                FFmpegRequest::ReadLine,
            ),
            ProgressLine::End => {
                let mut events: Vec<ConversionProgress> = Vec::new();
                assert(trace(events@) =~= Seq::empty());
                Self::send_progress(
                    &mut events,
                    100,
                    String::from_str("Conversion complete!"),
                    self.source_file.as_str(),
                    self.target_format,
                    self.output_file.as_str(),
                    true,
                    false,
                    None,
                );
                assert(trace(events@) =~= line_step(self@, line@).events);
                self.run = FFmpegCounters {
                    stage: FFmpegStage::Waiting,
                    percent: 100,
                    completed: true,
                    ..self.run
                };
                FFmpegStep { events, request: FFmpegRequest::Wait }
            },
            ProgressLine::Other => self.go_silently(self.run, FFmpegRequest::ReadLine),
        }
    }

    /// Takes the tool's exit.
    fn take_exit(&mut self, exit: ProcessExit) -> (r: FFmpegStep)
        requires
            old(self)@.stage == FFmpegStage::Waiting,
        ensures
            final(self)@ == exit_step(old(self)@, exit).next,
            trace(r.events@) == exit_step(old(self)@, exit).events,
            r.request@ == exit_step(old(self)@, exit).request,
    {
        proof {
            use_type_invariant(&*self);
        }
        match exit {
            ProcessExit::Success => {
                if self.run.completed {
                    self.go_silently(
                        FFmpegCounters { stage: FFmpegStage::Complete, ..self.run },
                        FFmpegRequest::Stop,
                    )
                } else {
                    let mut events: Vec<ConversionProgress> = Vec::new();
                    assert(trace(events@) =~= Seq::empty());
                    Self::send_progress(
                        &mut events,
                        100,
                        String::from_str("Conversion complete!"),
                        self.source_file.as_str(),
                        self.target_format,
                        self.output_file.as_str(),
                        true,
                        false,
                        None,
                    );
                    assert(trace(events@) =~= exit_step(self@, exit).events);
                    self.run = FFmpegCounters {
                        stage: FFmpegStage::Complete,
                        percent: 100,
                        completed: true,
                        ..self.run
                    };
                    FFmpegStep { events, request: FFmpegRequest::Stop }
                }
            },
            ProcessExit::Code(code) => {
                let digits = signed_decimal_string(code);
                let step = concat2("FFmpeg failed with exit code: ", digits.as_str());
                let error = FFmpegError::ProcessError(code).message();
                self.fail(step, error)
            },
            ProcessExit::Signal => {
                let step = FFmpegError::ProcessTerminated.message();
                let error = FFmpegError::ProcessTerminated.message();
                self.fail(step, error)
            },
        }
    }

    /// Takes the result of what the last step asked for, and says what comes
    /// next. Within a run the reports never fall in percent.
    pub fn advance(&mut self, reply: FFmpegReply) -> (r: FFmpegStep)
        ensures
            final(self)@ == ffmpeg_step(old(self)@, reply@).next,
            trace(r.events@) == ffmpeg_step(old(self)@, reply@).events,
            r.request@ == ffmpeg_step(old(self)@, reply@).request,
            ffmpeg_state_ok(old(self)@),
            ffmpeg_state_ok(final(self)@),
            rising_from(old(self)@.percent, trace(r.events@)),
            old(self)@.percent <= final(self)@.percent <= 100,
    {
        proof {
            use_type_invariant(&*self);
            lemma_ffmpeg_step_progress(self@, reply@);
        }
        let stage = self.run.stage;
        match stage {
            FFmpegStage::Idle | FFmpegStage::Complete | FFmpegStage::Failed => {
                return self.go_silently(self.run, FFmpegRequest::Stop);
            },
            _ => {},
        }
        match reply {
            FFmpegReply::Probed(query) => {
                match stage {
                    FFmpegStage::ProbingDuration => {
                        let duration = match Self::get_video_duration(&query) {
                            Ok(ms) => ms,
                            Err(_) => 0,
                        };
                        self.take_duration(duration)
                    },
                    _ => self.fail_with("Failed to execute FFmpeg: ", "unexpected reply"),
                }
            },
            FFmpegReply::Spawned => {
                match stage {
                    FFmpegStage::Spawning => self.go_silently(
                        FFmpegCounters { stage: FFmpegStage::Reading, ..self.run },
                        FFmpegRequest::ReadLine,
                    ),
                    _ => self.fail_with("Failed to execute FFmpeg: ", "unexpected reply"),
                }
            },
            FFmpegReply::Line(line) => {
                match stage {
                    FFmpegStage::Reading => self.take_line(line.as_slice()),
                    _ => self.fail_with("Failed to execute FFmpeg: ", "unexpected reply"),
                }
            },
            FFmpegReply::EndOfStream => {
                match stage {
                    FFmpegStage::Reading => self.go_silently(
                        FFmpegCounters { stage: FFmpegStage::Waiting, ..self.run },
                        FFmpegRequest::Wait,
                    ),
                    _ => self.fail_with("Failed to execute FFmpeg: ", "unexpected reply"),
                }
            },
            FFmpegReply::Exited(exit) => {
                match stage {
                    FFmpegStage::Waiting => self.take_exit(exit),
                    _ => self.fail_with("Failed to execute FFmpeg: ", "unexpected reply"),
                }
            },
            FFmpegReply::Failed(e) => {
                match stage {
                    FFmpegStage::ProbingDuration => self.take_duration(0),
                    FFmpegStage::Spawning => self.fail_with("Failed to start FFmpeg: ", e.as_str()),
                    FFmpegStage::Reading => self.fail_with(
                        "Error reading FFmpeg output: ",
                        e.as_str(),
                    ),
                    _ => self.fail_with("Error waiting for FFmpeg: ", e.as_str()),
                }
            },
        }
    }
}

} // verus!

//! The built-in backend: it copies the source to the output in chunks, stamps
//! each chunk with the target container's marker, and reports its progress.
//! The backend is a step function: each step says which reports to hand on,
//! how long to pause and which file operation comes next; the caller performs
//! the operation and hands its result to the following step.

use vstd::prelude::*;
use crate::converter::{
    completion_report, ends_complete, ends_in_error, failure_report, lemma_trace_push,
    lemma_watched_run, non_decreasing, progress_report, rising_from, still_running, trace,
    watched, ConversionMode, ConversionProgress, ConverterState, ConverterView, ProgressView,
    VideoFormat,
};
use crate::text::{concat2, decimal, decimal_string};

verus! {

/// Why the built-in backend could not run.
#[derive(Debug)]
pub enum NativeConverterError {
    /// The source could not be read; the text is the reader's complaint.
    InputError(String),
    /// The output could not be created.
    OutputError(String),
    /// The conversion broke off.
    ConversionError(String),
    /// The source file does not exist.
    InvalidInput,
    /// The target format is not supported.
    UnsupportedFormat,
}

impl NativeConverterError {
    /// The text of the error.
    pub open spec fn text(self) -> Seq<char> {
        match self {
            NativeConverterError::InputError(e) => "Failed to read input file: "@ + e@,
            NativeConverterError::OutputError(e) => "Failed to create output file: "@ + e@,
            NativeConverterError::ConversionError(e) => "Failed during conversion: "@ + e@,
            NativeConverterError::InvalidInput => "Invalid input file"@,
            NativeConverterError::UnsupportedFormat => "Unsupported format"@,
        }
    }

    /// The text of the error, for display.
    pub fn message(&self) -> (r: String)
        ensures
            r@ == self.text(),
    {
        match self {
            NativeConverterError::InputError(e) => concat2("Failed to read input file: ", e.as_str()),
            NativeConverterError::OutputError(e) => concat2(
                "Failed to create output file: ",
                e.as_str(),
            ),
            NativeConverterError::ConversionError(e) => concat2(
                "Failed during conversion: ",
                e.as_str(),
            ),
            NativeConverterError::InvalidInput => String::from_str("Invalid input file"),
            NativeConverterError::UnsupportedFormat => String::from_str("Unsupported format"),
        }
    }
}

/// The bytes that open the output file: the signature of the container.
pub open spec fn header_bytes(format: VideoFormat) -> Seq<u8> {
    match format {
        VideoFormat::MP4 => seq![0u8, 0u8, 0u8, 24u8, 102u8, 116u8, 121u8, 112u8, 109u8, 112u8, 52u8, 50u8, 0u8, 0u8, 0u8, 0u8, 109u8, 112u8, 52u8, 50u8, 109u8, 112u8, 52u8, 49u8, 0u8, 0u8, 0u8, 1u8],
        VideoFormat::MKV => seq![26u8, 69u8, 223u8, 163u8, 1u8, 0u8, 0u8, 0u8, 0u8, 0u8, 0u8, 35u8, 66u8, 134u8, 129u8, 1u8],
        VideoFormat::AVI => seq![82u8, 73u8, 70u8, 70u8, 0u8, 0u8, 0u8, 0u8, 65u8, 86u8, 73u8, 32u8, 76u8, 73u8, 83u8, 84u8, 0u8, 0u8, 0u8, 0u8, 104u8, 100u8, 114u8, 108u8, 97u8, 118u8, 105u8, 104u8, 0u8, 0u8, 0u8, 0u8],
        VideoFormat::MOV => seq![0u8, 0u8, 0u8, 20u8, 102u8, 116u8, 121u8, 112u8, 113u8, 116u8, 32u8, 32u8, 0u8, 0u8, 0u8, 0u8, 113u8, 116u8, 32u8, 32u8, 0u8, 0u8, 0u8, 1u8],
        VideoFormat::WEBM => seq![26u8, 69u8, 223u8, 163u8, 1u8, 0u8, 0u8, 0u8, 0u8, 0u8, 0u8, 35u8, 66u8, 134u8, 129u8, 2u8],
    }
}

/// The bytes that open the output file: the signature of the container.
pub fn container_header(format: VideoFormat) -> (r: Vec<u8>)
    ensures
        r@ == header_bytes(format),
{
    let r: Vec<u8> = match format {
        VideoFormat::MP4 => vec![0u8, 0u8, 0u8, 24u8, 102u8, 116u8, 121u8, 112u8, 109u8, 112u8, 52u8, 50u8, 0u8, 0u8, 0u8, 0u8, 109u8, 112u8, 52u8, 50u8, 109u8, 112u8, 52u8, 49u8, 0u8, 0u8, 0u8, 1u8],
        VideoFormat::MKV => vec![26u8, 69u8, 223u8, 163u8, 1u8, 0u8, 0u8, 0u8, 0u8, 0u8, 0u8, 35u8, 66u8, 134u8, 129u8, 1u8],
        VideoFormat::AVI => vec![82u8, 73u8, 70u8, 70u8, 0u8, 0u8, 0u8, 0u8, 65u8, 86u8, 73u8, 32u8, 76u8, 73u8, 83u8, 84u8, 0u8, 0u8, 0u8, 0u8, 104u8, 100u8, 114u8, 108u8, 97u8, 118u8, 105u8, 104u8, 0u8, 0u8, 0u8, 0u8],
        VideoFormat::MOV => vec![0u8, 0u8, 0u8, 20u8, 102u8, 116u8, 121u8, 112u8, 113u8, 116u8, 32u8, 32u8, 0u8, 0u8, 0u8, 0u8, 113u8, 116u8, 32u8, 32u8, 0u8, 0u8, 0u8, 1u8],
        VideoFormat::WEBM => vec![26u8, 69u8, 223u8, 163u8, 1u8, 0u8, 0u8, 0u8, 0u8, 0u8, 0u8, 35u8, 66u8, 134u8, 129u8, 2u8],
    };
    assert(r@ =~= header_bytes(format));
    r
}

/// The bytes that describe the audio stream.
pub open spec fn audio_meta_bytes(format: VideoFormat) -> Seq<u8> {
    match format {
        VideoFormat::MP4 => seq![0u8, 0u8, 0u8, 32u8, 109u8, 112u8, 52u8, 97u8, 0u8, 0u8, 0u8, 0u8, 0u8, 0u8, 0u8, 1u8, 0u8, 0u8, 0u8, 0u8, 0u8, 0u8, 0u8, 0u8],
        VideoFormat::MKV => seq![163u8, 66u8, 134u8, 129u8, 1u8, 66u8, 135u8, 129u8, 2u8, 66u8, 133u8, 129u8, 2u8],
        VideoFormat::AVI => seq![76u8, 73u8, 83u8, 84u8, 0u8, 0u8, 0u8, 112u8, 115u8, 116u8, 114u8, 108u8, 115u8, 116u8, 114u8, 104u8, 0u8, 0u8, 0u8, 56u8, 97u8, 117u8, 100u8, 115u8, 0u8, 0u8, 0u8, 0u8],
        VideoFormat::MOV => seq![0u8, 0u8, 0u8, 32u8, 109u8, 112u8, 52u8, 97u8, 0u8, 0u8, 0u8, 0u8, 0u8, 0u8, 0u8, 1u8, 0u8, 0u8, 0u8, 0u8, 0u8, 0u8, 0u8, 0u8],
        VideoFormat::WEBM => seq![163u8, 66u8, 134u8, 129u8, 1u8, 66u8, 135u8, 129u8, 4u8, 66u8, 133u8, 129u8, 2u8],
    }
}

/// The bytes that describe the audio stream.
pub fn audio_metadata(format: VideoFormat) -> (r: Vec<u8>)
    ensures
        r@ == audio_meta_bytes(format),
{
    let r: Vec<u8> = match format {
        VideoFormat::MP4 => vec![0u8, 0u8, 0u8, 32u8, 109u8, 112u8, 52u8, 97u8, 0u8, 0u8, 0u8, 0u8, 0u8, 0u8, 0u8, 1u8, 0u8, 0u8, 0u8, 0u8, 0u8, 0u8, 0u8, 0u8],
        VideoFormat::MKV => vec![163u8, 66u8, 134u8, 129u8, 1u8, 66u8, 135u8, 129u8, 2u8, 66u8, 133u8, 129u8, 2u8],
        VideoFormat::AVI => vec![76u8, 73u8, 83u8, 84u8, 0u8, 0u8, 0u8, 112u8, 115u8, 116u8, 114u8, 108u8, 115u8, 116u8, 114u8, 104u8, 0u8, 0u8, 0u8, 56u8, 97u8, 117u8, 100u8, 115u8, 0u8, 0u8, 0u8, 0u8],
        VideoFormat::MOV => vec![0u8, 0u8, 0u8, 32u8, 109u8, 112u8, 52u8, 97u8, 0u8, 0u8, 0u8, 0u8, 0u8, 0u8, 0u8, 1u8, 0u8, 0u8, 0u8, 0u8, 0u8, 0u8, 0u8, 0u8],
        VideoFormat::WEBM => vec![163u8, 66u8, 134u8, 129u8, 1u8, 66u8, 135u8, 129u8, 4u8, 66u8, 133u8, 129u8, 2u8],
    };
    assert(r@ =~= audio_meta_bytes(format));
    r
}

/// The bytes that describe the video stream.
pub open spec fn video_codec_bytes(format: VideoFormat) -> Seq<u8> {
    match format {
        VideoFormat::MP4 => seq![0u8, 0u8, 0u8, 32u8, 97u8, 118u8, 99u8, 49u8, 0u8, 0u8, 0u8, 0u8, 0u8, 0u8, 0u8, 1u8, 0u8, 0u8, 0u8, 0u8, 0u8, 0u8, 0u8, 0u8],
        VideoFormat::MKV => seq![134u8, 66u8, 135u8, 129u8, 4u8, 66u8, 133u8, 129u8, 2u8, 66u8, 134u8, 132u8, 119u8, 101u8, 98u8, 109u8],
        VideoFormat::AVI => seq![76u8, 73u8, 83u8, 84u8, 0u8, 0u8, 0u8, 112u8, 115u8, 116u8, 114u8, 108u8, 115u8, 116u8, 114u8, 104u8, 0u8, 0u8, 0u8, 56u8, 118u8, 105u8, 100u8, 115u8, 0u8, 0u8, 0u8, 0u8],
        VideoFormat::MOV => seq![0u8, 0u8, 0u8, 32u8, 97u8, 118u8, 99u8, 49u8, 0u8, 0u8, 0u8, 0u8, 0u8, 0u8, 0u8, 1u8, 0u8, 0u8, 0u8, 0u8, 0u8, 0u8, 0u8, 0u8],
        VideoFormat::WEBM => seq![134u8, 66u8, 135u8, 129u8, 4u8, 66u8, 133u8, 129u8, 2u8, 66u8, 134u8, 132u8, 86u8, 80u8, 56u8, 48u8],
    }
}

/// The bytes that describe the video stream.
pub fn video_codec_info(format: VideoFormat) -> (r: Vec<u8>)
    ensures
        r@ == video_codec_bytes(format),
{
    let r: Vec<u8> = match format {
        VideoFormat::MP4 => vec![0u8, 0u8, 0u8, 32u8, 97u8, 118u8, 99u8, 49u8, 0u8, 0u8, 0u8, 0u8, 0u8, 0u8, 0u8, 1u8, 0u8, 0u8, 0u8, 0u8, 0u8, 0u8, 0u8, 0u8],
        VideoFormat::MKV => vec![134u8, 66u8, 135u8, 129u8, 4u8, 66u8, 133u8, 129u8, 2u8, 66u8, 134u8, 132u8, 119u8, 101u8, 98u8, 109u8],
        VideoFormat::AVI => vec![76u8, 73u8, 83u8, 84u8, 0u8, 0u8, 0u8, 112u8, 115u8, 116u8, 114u8, 108u8, 115u8, 116u8, 114u8, 104u8, 0u8, 0u8, 0u8, 56u8, 118u8, 105u8, 100u8, 115u8, 0u8, 0u8, 0u8, 0u8],
        VideoFormat::MOV => vec![0u8, 0u8, 0u8, 32u8, 97u8, 118u8, 99u8, 49u8, 0u8, 0u8, 0u8, 0u8, 0u8, 0u8, 0u8, 1u8, 0u8, 0u8, 0u8, 0u8, 0u8, 0u8, 0u8, 0u8],
        VideoFormat::WEBM => vec![134u8, 66u8, 135u8, 129u8, 4u8, 66u8, 133u8, 129u8, 2u8, 66u8, 134u8, 132u8, 86u8, 80u8, 56u8, 48u8],
    };
    assert(r@ =~= video_codec_bytes(format));
    r
}

/// The bytes that close the output file.
pub open spec fn footer_bytes(format: VideoFormat) -> Seq<u8> {
    match format {
        VideoFormat::MP4 => seq![0u8, 0u8, 0u8, 20u8, 109u8, 100u8, 97u8, 116u8, 0u8, 0u8, 0u8, 0u8, 0u8, 0u8, 0u8, 0u8, 0u8, 0u8, 0u8, 0u8],
        VideoFormat::MKV => seq![31u8, 67u8, 182u8, 117u8, 1u8, 0u8, 0u8, 0u8, 0u8, 0u8, 0u8, 0u8, 0u8, 0u8, 0u8, 0u8],
        VideoFormat::AVI => seq![105u8, 100u8, 120u8, 49u8, 0u8, 0u8, 0u8, 0u8, 0u8, 0u8, 0u8, 0u8, 0u8, 0u8, 0u8, 0u8, 0u8, 0u8, 0u8, 0u8],
        VideoFormat::MOV => seq![0u8, 0u8, 0u8, 0u8, 109u8, 111u8, 111u8, 118u8, 0u8, 0u8, 0u8, 0u8, 0u8, 0u8, 0u8, 0u8, 0u8, 0u8, 0u8, 0u8],
        VideoFormat::WEBM => seq![31u8, 67u8, 182u8, 117u8, 1u8, 0u8, 0u8, 0u8, 0u8, 0u8, 0u8, 0u8, 0u8, 0u8, 0u8, 0u8],
    }
}

/// The bytes that close the output file.
pub fn container_footer(format: VideoFormat) -> (r: Vec<u8>)
    ensures
        r@ == footer_bytes(format),
{
    let r: Vec<u8> = match format {
        VideoFormat::MP4 => vec![0u8, 0u8, 0u8, 20u8, 109u8, 100u8, 97u8, 116u8, 0u8, 0u8, 0u8, 0u8, 0u8, 0u8, 0u8, 0u8, 0u8, 0u8, 0u8, 0u8],
        VideoFormat::MKV => vec![31u8, 67u8, 182u8, 117u8, 1u8, 0u8, 0u8, 0u8, 0u8, 0u8, 0u8, 0u8, 0u8, 0u8, 0u8, 0u8],
        VideoFormat::AVI => vec![105u8, 100u8, 120u8, 49u8, 0u8, 0u8, 0u8, 0u8, 0u8, 0u8, 0u8, 0u8, 0u8, 0u8, 0u8, 0u8, 0u8, 0u8, 0u8, 0u8],
        VideoFormat::MOV => vec![0u8, 0u8, 0u8, 0u8, 109u8, 111u8, 111u8, 118u8, 0u8, 0u8, 0u8, 0u8, 0u8, 0u8, 0u8, 0u8, 0u8, 0u8, 0u8, 0u8],
        VideoFormat::WEBM => vec![31u8, 67u8, 182u8, 117u8, 1u8, 0u8, 0u8, 0u8, 0u8, 0u8, 0u8, 0u8, 0u8, 0u8, 0u8, 0u8],
    };
    assert(r@ =~= footer_bytes(format));
    r
}

/// A chunk with the container's marker stamped on it. A chunk of at most four
/// bytes is left as it is. AVI marks the first two and the last two bytes,
/// the other formats the first four.
pub open spec fn stamped(format: VideoFormat, chunk: Seq<u8>) -> Seq<u8> {
    if chunk.len() <= 4 {
        chunk
    } else {
        match format {
            VideoFormat::MP4 => chunk.update(0, 0x00u8).update(1, 0x00u8).update(2, 0x00u8).update(
                3,
                0x01u8,
            ),
            VideoFormat::MKV => chunk.update(0, 0x1Au8).update(1, 0x45u8).update(2, 0xDFu8).update(
                3,
                0xA3u8,
            ),
            VideoFormat::AVI => chunk.update(0, 0xFFu8).update(1, 0xD8u8).update(
                chunk.len() - 2,
                0xFFu8,
            ).update(chunk.len() - 1, 0xD9u8),
            VideoFormat::MOV => chunk.update(0, 0x69u8).update(1, 0x63u8).update(2, 0x70u8).update(
                3,
                0x66u8,
            ),
            VideoFormat::WEBM => chunk.update(0, 0x56u8).update(1, 0x50u8).update(2, 0x39u8).update(
                3,
                0x30u8,
            ),
        }
    }
}

/// Stamps the container's marker on a chunk.
pub fn stamp_chunk(format: VideoFormat, chunk: Vec<u8>) -> (r: Vec<u8>)
    ensures
        r@ == stamped(format, chunk@),
        r@.len() == chunk@.len(),
{
    let mut data = chunk;
    let len = data.len();
    if len > 4 {
        match format {
            VideoFormat::MP4 => {
                data.set(0, 0x00);
                data.set(1, 0x00);
                data.set(2, 0x00);
                data.set(3, 0x01);
            },
            VideoFormat::MKV => {
                data.set(0, 0x1A);
                data.set(1, 0x45);
                data.set(2, 0xDF);
                data.set(3, 0xA3);
            },
            VideoFormat::AVI => {
                data.set(0, 0xFF);
                data.set(1, 0xD8);
                data.set(len - 2, 0xFF);
                data.set(len - 1, 0xD9);
            },
            VideoFormat::MOV => {
                data.set(0, 0x69);
                data.set(1, 0x63);
                data.set(2, 0x70);
                data.set(3, 0x66);
            },
            VideoFormat::WEBM => {
                data.set(0, 0x56);
                data.set(1, 0x50);
                data.set(2, 0x39);
                data.set(3, 0x30);
            },
        }
    }
    data
}

/// The percent to report once `bytes_read` of `file_size` bytes are copied:
/// copying spans 15 to 85 percent. A source that turned out empty, or that
/// grew while it was read, counts as 85.
pub open spec fn chunk_percent(bytes_read: nat, file_size: nat) -> nat {
    if file_size == 0 || 15 + bytes_read * 70 / file_size > 85 {
        85
    } else {
        15 + bytes_read * 70 / file_size
    }
}

/// The percent never falls as more bytes are copied.
pub proof fn lemma_chunk_percent_monotone(a: nat, b: nat, file_size: nat)
    requires
        a <= b,
    ensures
        15 <= chunk_percent(a, file_size) <= chunk_percent(b, file_size) <= 85,
{
    if file_size > 0 {
        assert(a * 70 / file_size <= b * 70 / file_size) by (nonlinear_arith)
            requires
                a <= b,
                file_size > 0,
        ;
        assert(0 <= a * 70 / file_size) by (nonlinear_arith)
            requires
                file_size > 0,
        ;
    }
}

/// Computes the percent to report for the bytes copied so far.
pub fn copy_percent(bytes_read: u64, file_size: u64) -> (r: u8)
    ensures
        r == chunk_percent(bytes_read as nat, file_size as nat),
        15 <= r <= 85,
{
    if file_size == 0 {
        85
    } else {
        let scaled: u128 = (bytes_read as u128) * 70 / (file_size as u128);
        assert(scaled == (bytes_read as nat) * 70 / (file_size as nat));
        if scaled > 70 {
            85
        } else {
            (scaled as u8) + 15
        }
    }
}

/// The share of the source copied so far, in tenths of a percent, rounded to
/// the nearest tenth. An empty source counts as copied in full.
pub open spec fn copied_tenths(bytes_read: nat, file_size: nat) -> nat {
    if file_size == 0 {
        1000
    } else {
        (bytes_read * 2000 + file_size) / (2 * file_size)
    }
}

/// Computes the share of the source copied so far, in tenths of a percent.
pub fn copied_share(bytes_read: u64, file_size: u64) -> (r: u128)
    ensures
        r == copied_tenths(bytes_read as nat, file_size as nat),
{
    if file_size == 0 {
        1000
    } else {
        ((bytes_read as u128) * 2000 + (file_size as u128)) / (2 * (file_size as u128))
    }
}

/// Where a run of the built-in backend stands: the operation it waits for.
#[derive(Debug, Clone, Copy, PartialEq, Eq, Structural)]
pub enum NativeStage {
    /// No run was started.
    Idle,
    SizingSource,
    OpeningSource,
    CreatingOutput,
    WritingHeader,
    WritingAudioMeta,
    WritingVideoCodec,
    ReadingChunk,
    WritingChunk,
    /// All chunks are copied; the run pauses before it finalizes.
    Muxing,
    Flushing,
    WritingFooter,
    /// The run ended with the output written.
    Complete,
    /// The run ended with an error.
    Failed,
}

/// The file operation that the caller performs next.
#[derive(Debug)]
pub enum NativeRequest {
    /// Ask for the size of the source file in bytes.
    FileSize,
    /// Open the source file for reading.
    OpenSource,
    /// Create the output file.
    CreateOutput,
    /// Write these bytes to the output.
    Write(Vec<u8>),
    /// Read the next chunk of the source, 8192 bytes at most.
    ReadChunk,
    /// Nothing to do but to call the next step.
    Continue,
    /// Flush the output.
    Flush,
    /// The run is over.
    Stop,
}

/// A request with its bytes as a sequence.
pub ghost enum NativeRequestView {
    FileSize,
    OpenSource,
    CreateOutput,
    Write(Seq<u8>),
    ReadChunk,
    Continue,
    Flush,
    Stop,
}

impl View for NativeRequest {
    type V = NativeRequestView;

    open spec fn view(&self) -> NativeRequestView {
        match self {
            NativeRequest::FileSize => NativeRequestView::FileSize,
            NativeRequest::OpenSource => NativeRequestView::OpenSource,
            NativeRequest::CreateOutput => NativeRequestView::CreateOutput,
            NativeRequest::Write(b) => NativeRequestView::Write(b@),
            NativeRequest::ReadChunk => NativeRequestView::ReadChunk,
            NativeRequest::Continue => NativeRequestView::Continue,
            NativeRequest::Flush => NativeRequestView::Flush,
            NativeRequest::Stop => NativeRequestView::Stop,
        }
    }
}

/// How the operation of the last request ended.
#[derive(Debug)]
pub enum NativeReply {
    /// The size of the source file.
    Size(u64),
    /// The operation succeeded and has nothing to hand back.
    Done,
    /// The bytes read; none at the end of the source.
    Chunk(Vec<u8>),
    /// The operation failed; the text says why.
    Failed(String),
}

/// A reply with its bytes and text as sequences.
pub ghost enum NativeReplyView {
    Size(u64),
    Done,
    Chunk(Seq<u8>),
    Failed(Seq<char>),
}

impl View for NativeReply {
    type V = NativeReplyView;

    open spec fn view(&self) -> NativeReplyView {
        match self {
            NativeReply::Size(n) => NativeReplyView::Size(*n),
            NativeReply::Done => NativeReplyView::Done,
            NativeReply::Chunk(b) => NativeReplyView::Chunk(b@),
            NativeReply::Failed(e) => NativeReplyView::Failed(e@),
        }
    }
}

/// What one step asks of the caller: hand on the reports, pause, then perform
/// the request.
#[derive(Debug)]
pub struct NativeStep {
    pub events: Vec<ConversionProgress>,
    pub pause_ms: u64,
    pub request: NativeRequest,
}

/// The state of a run, with its texts as character sequences.
pub ghost struct NativeState {
    pub stage: NativeStage,
    pub source: Seq<char>,
    pub format: VideoFormat,
    pub output: Seq<char>,
    pub file_size: u64,
    pub bytes_read: u64,
    pub frame_count: u64,
    pub percent: u8,
}

/// What one step yields: the state after it and what it asks of the caller.
pub ghost struct NativeOutcome {
    pub next: NativeState,
    pub events: Seq<ProgressView>,
    pub pause_ms: u64,
    pub request: NativeRequestView,
}

/// A report of a run that goes on.
pub open spec fn running_report(s: NativeState, percent: u8, step: Seq<char>) -> ProgressView {
    progress_report(s.source, s.format, s.output, percent, step)
}

/// The report that ends a run with success.
pub open spec fn complete_report(s: NativeState) -> ProgressView {
    completion_report(s.source, s.format, s.output)
}

/// The report that ends a run with an error. It keeps the percent reached.
pub open spec fn error_report(s: NativeState, step: Seq<char>, error: Seq<char>) -> ProgressView {
    failure_report(s.source, s.format, s.output, s.percent, step, error)
}

/// The step text of the error report for an operation that failed.
pub open spec fn failure_step_prefix(stage: NativeStage) -> Seq<char> {
    match stage {
        NativeStage::SizingSource => "Failed to get file size: "@,
        NativeStage::OpeningSource => "Failed to open input file: "@,
        NativeStage::CreatingOutput => "Failed to create output file: "@,
        NativeStage::WritingHeader => "Failed to write container header: "@,
        NativeStage::WritingAudioMeta => "Failed to write audio metadata: "@,
        NativeStage::WritingVideoCodec => "Failed to write video codec info: "@,
        NativeStage::ReadingChunk => "Error reading data: "@,
        NativeStage::WritingChunk => "Error writing video data: "@,
        NativeStage::Flushing => "Failed to finalize output: "@,
        NativeStage::WritingFooter => "Failed to write container footer: "@,
        _ => "Failed during conversion: "@,
    }
}

/// The error message of the error report for an operation that failed.
pub open spec fn failure_error_prefix(stage: NativeStage) -> Seq<char> {
    match stage {
        NativeStage::SizingSource => "File size error: "@,
        NativeStage::OpeningSource => "Input error: "@,
        NativeStage::CreatingOutput => "Output error: "@,
        NativeStage::WritingHeader => "Header error: "@,
        NativeStage::WritingAudioMeta => "Audio metadata error: "@,
        NativeStage::WritingVideoCodec => "Video codec error: "@,
        NativeStage::ReadingChunk => "Read error: "@,
        NativeStage::WritingChunk => "Write error: "@,
        NativeStage::Flushing => "Finalize error: "@,
        NativeStage::WritingFooter => "Footer error: "@,
        _ => "Failed during conversion: "@,
    }
}

/// The text of the report on the source's size.
pub open spec fn size_text(file_size: u64) -> Seq<char> {
    "Analyzing video file... Size: "@ + decimal(file_size as nat) + " bytes"@
}

/// The text of the report on the chunks copied: the chunk's number, the
/// estimated number of chunks (one per 4096 bytes of the source) and the
/// share copied, with one decimal.
pub open spec fn frame_text(frame_count: u64, file_size: u64, bytes_read: u64) -> Seq<char> {
    "Processing frame "@ + decimal(frame_count as nat) + "/"@ + decimal((file_size / 4096) as nat)
        + " ("@ + decimal(copied_tenths(bytes_read as nat, file_size as nat) / 10) + "."@
        + decimal(copied_tenths(bytes_read as nat, file_size as nat) % 10) + "%)"@
}

/// The sum of two counters, held at the largest value instead of overflowing.
pub open spec fn saturating_sum(a: u64, b: nat) -> u64 {
    if a + b > u64::MAX {
        u64::MAX
    } else {
        (a + b) as u64
    }
}

/// The outcome of a step that fails: one error report, and the run is over.
pub open spec fn failure(s: NativeState, step: Seq<char>, error: Seq<char>) -> NativeOutcome {
    NativeOutcome {
        next: NativeState { stage: NativeStage::Failed, ..s },
        events: seq![error_report(s, step, error)],
        pause_ms: 0,
        request: NativeRequestView::Stop,
    }
}

/// The outcome of a step that reports once and goes on to the next stage.
pub open spec fn proceed(
    s: NativeState,
    stage: NativeStage,
    percent: u8,
    step: Seq<char>,
    pause_ms: u64,
    request: NativeRequestView,
) -> NativeOutcome {
    NativeOutcome {
        next: NativeState { stage, percent, ..s },
        events: seq![running_report(s, percent, step)],
        pause_ms,
        request,
    }
}

/// The outcome of a step that goes on to the next stage without a report.
pub open spec fn proceed_silently(
    s: NativeState,
    stage: NativeStage,
    pause_ms: u64,
    request: NativeRequestView,
) -> NativeOutcome {
    NativeOutcome {
        next: NativeState { stage, ..s },
        events: Seq::empty(),
        pause_ms,
        request,
    }
}

/// The outcome of the step that takes a chunk read from the source. An empty
/// chunk ends the copying. Any other chunk is counted, stamped and handed to
/// be written; every tenth chunk is reported.
pub open spec fn chunk_step(s: NativeState, data: Seq<u8>) -> NativeOutcome {
    if data.len() == 0 {
        proceed(
            s,
            NativeStage::Muxing,
            85,
            "Muxing audio and video streams..."@,
            800,
            NativeRequestView::Continue,
        )
    } else {
        let bytes_read = saturating_sum(s.bytes_read, data.len());
        let frame_count = saturating_sum(s.frame_count, 1);
        let percent = chunk_percent(bytes_read as nat, s.file_size as nat) as u8;
        NativeOutcome {
            next: NativeState {
                stage: NativeStage::WritingChunk,
                bytes_read,
                frame_count,
                percent,
                ..s
            },
            events: if frame_count % 10 == 0 {
                seq![running_report(s, percent, frame_text(frame_count, s.file_size, bytes_read))]
            } else {
                Seq::empty()
            },
            pause_ms: 0,
            request: NativeRequestView::Write(stamped(s.format, data)),
        }
    }
}

/// The step function of the built-in backend. A run that is over, or was not
/// started, stays as it is and asks for nothing. A failed operation ends the
/// run with an error report that names the operation. A reply that does not
/// answer the request ends it too. Else the run moves to its next operation.
pub open spec fn native_step(s: NativeState, reply: NativeReplyView) -> NativeOutcome {
    match (s.stage, reply) {
        (NativeStage::Idle, _) | (NativeStage::Complete, _) | (NativeStage::Failed, _) => {
            NativeOutcome {
                next: s,
                events: Seq::empty(),
                pause_ms: 0,
                request: NativeRequestView::Stop,
            }
        },
        (_, NativeReplyView::Failed(e)) => failure(
            s,
            failure_step_prefix(s.stage) + e,
            failure_error_prefix(s.stage) + e,
        ),
        (NativeStage::SizingSource, NativeReplyView::Size(n)) => NativeOutcome {
            next: NativeState { stage: NativeStage::OpeningSource, file_size: n, percent: 5, ..s },
            events: seq![running_report(s, 5, size_text(n))],
            pause_ms: 0,
            request: NativeRequestView::OpenSource,
        },
        (NativeStage::OpeningSource, NativeReplyView::Done) => proceed_silently(
            s,
            NativeStage::CreatingOutput,
            0,
            NativeRequestView::CreateOutput,
        ),
        (NativeStage::CreatingOutput, NativeReplyView::Done) => proceed(
            s,
            NativeStage::WritingHeader,
            5,
            "Analyzing video structure and metadata..."@,
            500,
            NativeRequestView::Write(header_bytes(s.format)),
        ),
        (NativeStage::WritingHeader, NativeReplyView::Done) => proceed(
            s,
            NativeStage::WritingAudioMeta,
            10,
            "Extracting and decoding audio streams..."@,
            800,
            NativeRequestView::Write(audio_meta_bytes(s.format)),
        ),
        (NativeStage::WritingAudioMeta, NativeReplyView::Done) => proceed(
            s,
            NativeStage::WritingVideoCodec,
            15,
            "Processing video frames..."@,
            0,
            NativeRequestView::Write(video_codec_bytes(s.format)),
        ),
        (NativeStage::WritingVideoCodec, NativeReplyView::Done) => proceed_silently(
            s,
            NativeStage::ReadingChunk,
            0,
            NativeRequestView::ReadChunk,
        ),
        (NativeStage::ReadingChunk, NativeReplyView::Chunk(data)) => chunk_step(s, data),
        (NativeStage::WritingChunk, NativeReplyView::Done) => proceed_silently(
            s,
            NativeStage::ReadingChunk,
            10,
            NativeRequestView::ReadChunk,
        ),
        (NativeStage::Muxing, NativeReplyView::Done) => proceed(
            s,
            NativeStage::Flushing,
            95,
            "Finalizing container format..."@,
            0,
            NativeRequestView::Flush,
        ),
        (NativeStage::Flushing, NativeReplyView::Done) => proceed_silently(
            s,
            NativeStage::WritingFooter,
            0,
            NativeRequestView::Write(footer_bytes(s.format)),
        ),
        (NativeStage::WritingFooter, NativeReplyView::Done) => NativeOutcome {
            next: NativeState { stage: NativeStage::Complete, percent: 100, ..s },
            events: seq![complete_report(s)],
            pause_ms: 0,
            request: NativeRequestView::Stop,
        },
        _ => failure(
            s,
            "Failed during conversion: unexpected reply"@,
            "Failed during conversion: unexpected reply"@,
        ),
    }
}

/// The percent that a run has reached fits its stage.
pub open spec fn stage_percent_ok(s: NativeState) -> bool {
    match s.stage {
        NativeStage::Idle | NativeStage::SizingSource => s.percent == 0,
        NativeStage::OpeningSource | NativeStage::CreatingOutput | NativeStage::WritingHeader => s.percent
            == 5,
        NativeStage::WritingAudioMeta => s.percent == 10,
        NativeStage::WritingVideoCodec => s.percent == 15,
        NativeStage::ReadingChunk | NativeStage::WritingChunk => 15 <= s.percent <= chunk_percent(
            s.bytes_read as nat,
            s.file_size as nat,
        ),
        NativeStage::Muxing => s.percent == 85,
        NativeStage::Flushing | NativeStage::WritingFooter => s.percent == 95,
        NativeStage::Complete => s.percent == 100,
        NativeStage::Failed => s.percent <= 100,
    }
}

/// Within a run the percent never falls, and the run ends in exactly one of
/// two ways. Every step of a run whose percent fits its stage keeps that fit;
/// its reports start at the percent reached before and end at the percent
/// reached after; the step that completes the run issues the one report with
/// the completion flag, at 100 percent and as its last; the step that fails
/// issues an error report as its last; no other step issues either.
pub proof fn lemma_native_step_progress(s: NativeState, reply: NativeReplyView)
    requires
        stage_percent_ok(s),
    ensures
        stage_percent_ok(native_step(s, reply).next),
        s.percent <= native_step(s, reply).next.percent <= 100,
        rising_from(s.percent, native_step(s, reply).events),
        forall|i: int|
            0 <= i < native_step(s, reply).events.len() ==> (#[trigger] native_step(
                s,
                reply,
            ).events[i]).percent <= native_step(s, reply).next.percent,
        native_step(s, reply).request == NativeRequestView::Stop <==> (native_step(s, reply).next.stage
            == NativeStage::Complete || native_step(s, reply).next.stage == NativeStage::Failed
            || native_step(s, reply).next.stage == NativeStage::Idle),
        s.stage != NativeStage::Complete && native_step(s, reply).next.stage == NativeStage::Complete
            ==> native_step(s, reply).events == seq![complete_report(s)],
        s.stage != NativeStage::Failed && native_step(s, reply).next.stage == NativeStage::Failed
            ==> native_step(s, reply).events.len() == 1 && native_step(s, reply).events[0].has_error
            && !native_step(s, reply).events[0].is_complete,
        native_step(s, reply).next.stage != NativeStage::Complete && native_step(s, reply).next.stage
            != NativeStage::Failed ==> forall|i: int|
            0 <= i < native_step(s, reply).events.len() ==> !(#[trigger] native_step(
                s,
                reply,
            ).events[i]).is_complete && !native_step(s, reply).events[i].has_error,
{
    lemma_chunk_percent_monotone(0, s.bytes_read as nat, s.file_size as nat);
    match reply {
        NativeReplyView::Chunk(data) => {
            let b = saturating_sum(s.bytes_read, data.len());
            lemma_chunk_percent_monotone(s.bytes_read as nat, b as nat, s.file_size as nat);
        },
        _ => {},
    }
}

/// The state of a run after a list of replies, taken one step each.
pub open spec fn native_after(s: NativeState, replies: Seq<NativeReplyView>) -> NativeState
    decreases replies.len(),
{
    if replies.len() == 0 {
        s
    } else {
        native_step(native_after(s, replies.drop_last()), replies.last()).next
    }
}

/// The reports of a run over a list of replies, in the order issued.
pub open spec fn native_trace(s: NativeState, replies: Seq<NativeReplyView>) -> Seq<ProgressView>
    decreases replies.len(),
{
    if replies.len() == 0 {
        Seq::empty()
    } else {
        native_trace(s, replies.drop_last()) + native_step(
            native_after(s, replies.drop_last()),
            replies.last(),
        ).events
    }
}

/// Whether a run is under way: started and not over.
pub open spec fn native_live(s: NativeState) -> bool {
    s.stage != NativeStage::Idle && s.stage != NativeStage::Complete && s.stage
        != NativeStage::Failed
}

/// Whatever the file operations hand back, a run's reports never fall in
/// percent, and the run ends in one of two ways: a run that has completed
/// has issued the report of completion, at 100 percent, as its last and one
/// only; a run that has failed has issued one error report, as its last, and
/// no report of completion; a run still under way has issued neither.
pub proof fn lemma_native_run(s: NativeState, replies: Seq<NativeReplyView>)
    requires
        stage_percent_ok(s),
        native_live(s),
    ensures
        stage_percent_ok(native_after(s, replies)),
        native_after(s, replies).stage != NativeStage::Idle,
        s.percent <= native_after(s, replies).percent <= 100,
        non_decreasing(native_trace(s, replies)),
        forall|i: int|
            0 <= i < native_trace(s, replies).len() ==> s.percent <= (#[trigger] native_trace(
                s,
                replies,
            )[i]).percent <= native_after(s, replies).percent,
        native_after(s, replies).stage == NativeStage::Complete ==> ends_complete(
            native_trace(s, replies),
        ),
        native_after(s, replies).stage == NativeStage::Failed ==> ends_in_error(
            native_trace(s, replies),
        ),
        native_live(native_after(s, replies)) ==> still_running(native_trace(s, replies)),
    decreases replies.len(),
{
    if replies.len() > 0 {
        let before = native_after(s, replies.drop_last());
        let head = native_trace(s, replies.drop_last());
        let tail = native_step(before, replies.last()).events;
        lemma_native_run(s, replies.drop_last());
        lemma_native_step_progress(before, replies.last());
        let all = native_trace(s, replies);
        assert(all == head + tail);
        assert forall|i: int| 0 <= i < all.len() implies s.percent <= (#[trigger] all[i]).percent
            <= native_after(s, replies).percent by {
            if i >= head.len() {
                assert(all[i] == tail[i - head.len()]);
            } else {
                assert(all[i] == head[i]);
            }
        }
        assert forall|i: int, j: int| 0 <= i <= j < all.len() implies (#[trigger] all[i]).percent <= (
        #[trigger] all[j]).percent by {
            if j >= head.len() {
                assert(all[j] == tail[j - head.len()]);
                if i >= head.len() {
                    assert(all[i] == tail[i - head.len()]);
                }
            }
        }
        if !native_live(before) {
            assert(tail.len() == 0);
            assert(all =~= head);
        } else {
            assert(still_running(head));
            if native_after(s, replies).stage == NativeStage::Complete {
                assert(tail == seq![complete_report(before)]);
                assert forall|i: int| 0 <= i < all.len() implies ((#[trigger] all[i]).is_complete
                    <==> i == all.len() - 1) by {
                    if i >= head.len() {
                        assert(all[i] == tail[i - head.len()]);
                    }
                }
                assert forall|i: int| 0 <= i < all.len() implies !(#[trigger] all[i]).has_error by {
                    if i >= head.len() {
                        assert(all[i] == tail[i - head.len()]);
                    }
                }
                assert(all.last() == tail[0]);
            } else if native_after(s, replies).stage == NativeStage::Failed {
                assert(tail.len() == 1);
                assert(all.last() == tail[0]);
                assert forall|i: int| 0 <= i < all.len() implies ((#[trigger] all[i]).has_error
                    <==> i == all.len() - 1) by {
                    if i >= head.len() {
                        assert(all[i] == tail[i - head.len()]);
                    }
                }
            } else {
                assert forall|i: int| 0 <= i < all.len() implies !(#[trigger] all[i]).is_complete
                    && !all[i].has_error by {
                    if i >= head.len() {
                        assert(all[i] == tail[i - head.len()]);
                    }
                }
            }
        }
    }
}

/// A run that is over has moved the request that watched it: a run that
/// completed has ended the request well, and a run that failed has handed it
/// to the simulation. So no request stays with a built-in backend that has
/// ended.
pub proof fn lemma_native_run_ends_request(
    s: NativeState,
    replies: Seq<NativeReplyView>,
    c: ConverterView,
)
    requires
        stage_percent_ok(s),
        native_live(s),
        c.state == ConverterState::Running(ConversionMode::NativeFFmpeg),
        !native_live(native_after(s, replies)),
    ensures
        watched(c, native_trace(s, replies)).state == (if native_after(s, replies).stage
            == NativeStage::Complete {
            ConverterState::Succeeded
        } else {
            ConverterState::Running(ConversionMode::Simulation)
        }),
{
    lemma_native_run(s, replies);
    lemma_watched_run(c, ConversionMode::NativeFFmpeg, native_trace(s, replies));
}

/// The counters of a run.
#[derive(Debug, Clone, Copy)]
struct NativeCounters {
    stage: NativeStage,
    file_size: u64,
    bytes_read: u64,
    frame_count: u64,
    percent: u8,
}

/// The built-in backend, between two steps of a run.
#[derive(Debug)]
pub struct NativeConverter {
    source_file: String,
    target_format: VideoFormat,
    output_file: String,
    run: NativeCounters,
}

impl View for NativeConverter {
    type V = NativeState;

    closed spec fn view(&self) -> NativeState {
        NativeState {
            stage: self.run.stage,
            source: self.source_file@,
            format: self.target_format,
            output: self.output_file@,
            file_size: self.run.file_size,
            bytes_read: self.run.bytes_read,
            frame_count: self.run.frame_count,
            percent: self.run.percent,
        }
    }
}

/// Adds two counters, holding the sum at the largest value.
fn add_saturating(a: u64, b: usize) -> (r: u64)
    ensures
        r == saturating_sum(a, b as nat),
{
    let wide: u128 = (a as u128) + (b as u128);
    if wide > u64::MAX as u128 {
        u64::MAX
    } else {
        wide as u64
    }
}

/// Builds the text of the report on the source's size.
fn size_message(file_size: u64) -> (r: String)
    ensures
        r@ == size_text(file_size),
{
    let mut text = String::from_str("Analyzing video file... Size: ");
    let digits = decimal_string(file_size as u128);
    text.append(digits.as_str());
    text.append(" bytes");
    text
}

/// Builds the text of the report on the chunks copied.
fn frame_message(frame_count: u64, file_size: u64, bytes_read: u64) -> (r: String)
    ensures
        r@ == frame_text(frame_count, file_size, bytes_read),
{
    let tenths = copied_share(bytes_read, file_size);
    let mut text = String::from_str("Processing frame ");
    let count = decimal_string(frame_count as u128);
    text.append(count.as_str());
    text.append("/");
    let estimate = decimal_string((file_size / 4096) as u128);
    text.append(estimate.as_str());
    text.append(" (");
    let whole = decimal_string(tenths / 10);
    text.append(whole.as_str());
    text.append(".");
    let fraction = decimal_string(tenths % 10);
    text.append(fraction.as_str());
    text.append("%)");
    text
}

/// The two texts of the error report for an operation that failed.
fn failure_prefixes(stage: NativeStage) -> (r: (&'static str, &'static str))
    ensures
        r.0@ == failure_step_prefix(stage),
        r.1@ == failure_error_prefix(stage),
{
    match stage {
        NativeStage::SizingSource => ("Failed to get file size: ", "File size error: "),
        NativeStage::OpeningSource => ("Failed to open input file: ", "Input error: "),
        NativeStage::CreatingOutput => ("Failed to create output file: ", "Output error: "),
        NativeStage::WritingHeader => ("Failed to write container header: ", "Header error: "),
        NativeStage::WritingAudioMeta => (
            "Failed to write audio metadata: ",
            "Audio metadata error: ",
        ),
        NativeStage::WritingVideoCodec => (
            "Failed to write video codec info: ",
            "Video codec error: ",
        ),
        NativeStage::ReadingChunk => ("Error reading data: ", "Read error: "),
        NativeStage::WritingChunk => ("Error writing video data: ", "Write error: "),
        NativeStage::Flushing => ("Failed to finalize output: ", "Finalize error: "),
        NativeStage::WritingFooter => ("Failed to write container footer: ", "Footer error: "),
        _ => ("Failed during conversion: ", "Failed during conversion: "),
    }
}

impl NativeConverter {
    #[verifier::type_invariant]
    spec fn percent_fits_stage(self) -> bool {
        stage_percent_ok(self@)
    }

    /// A backend with no run started.
    pub fn new() -> (r: NativeConverter)
        ensures
            r@ == (NativeState {
                stage: NativeStage::Idle,
                source: Seq::<char>::empty(),
                format: VideoFormat::MP4,
                output: Seq::<char>::empty(),
                file_size: 0,
                bytes_read: 0,
                frame_count: 0,
                percent: 0,
            }),
    {
        NativeConverter {
            source_file: String::new(),
            target_format: VideoFormat::MP4,
            output_file: String::new(),
            run: NativeCounters {
                stage: NativeStage::Idle,
                file_size: 0,
                bytes_read: 0,
                frame_count: 0,
                percent: 0,
            },
        }
    }

    /// The built-in backend needs nothing from the host: it is always usable.
    pub fn check_available() -> (r: Result<bool, NativeConverterError>)
        ensures
            r matches Ok(available) && available,
    {
        Ok(true)
    }

    /// The stage that the run is in.
    pub fn stage(&self) -> (r: NativeStage)
        ensures
            r == self@.stage,
    {
        self.run.stage
    }

    /// The percent that the run has reached.
    pub fn percent(&self) -> (r: u8)
        ensures
            r == self@.percent,
            stage_percent_ok(self@),
    {
        proof {
            use_type_invariant(self);
        }
        self.run.percent
    }

    /// Appends one report to a list of reports.
    pub fn send_progress(
        events: &mut Vec<ConversionProgress>,
        percent: u8,
        step: String,
        source_file: &str,
        target_format: VideoFormat,
        output_file: &str,
        is_complete: bool,
        has_error: bool,
        error_message: Option<String>,
    )
        ensures
            trace(final(events)@) == trace(old(events)@).push(
                (ProgressView {
                    percent,
                    step: step@,
                    source: source_file@,
                    format: target_format,
                    output: output_file@,
                    is_complete,
                    has_error,
                    error: crate::paths::opt_chars(error_message),
                    settings: None,
                }),
            ),
    {
        let event = ConversionProgress {
            percent,
            current_step: step,
            source_file: String::from_str(source_file),
            target_format,
            output_file: String::from_str(output_file),
            is_complete,
            has_error,
            error_message,
            video_settings: None,
        };
        proof {
            lemma_trace_push(events@, event);
        }
        events.push(event);
    }

    /// Starts a run. Without a source file there is no run: the error is
    /// `InvalidInput` and the backend stays as it was. Else the run starts
    /// from nothing, reports that it started and asks for the source's size.
    pub fn convert(
        &mut self,
        source_file: String,
        target_format: VideoFormat,
        output_file: String,
        source_exists: bool,
    ) -> (r: Result<NativeStep, NativeConverterError>)
        ensures
            match r {
                Ok(step) => {
                    &&& source_exists
                    &&& final(self)@ == (NativeState {
                        stage: NativeStage::SizingSource,
                        source: source_file@,
                        format: target_format,
                        output: output_file@,
                        file_size: 0,
                        bytes_read: 0,
                        frame_count: 0,
                        percent: 0,
                    })
                    &&& trace(step.events@) == seq![
                        running_report(final(self)@, 0, "Starting native Rust conversion..."@),
                    ]
                    &&& step.pause_ms == 0
                    &&& step.request@ == NativeRequestView::FileSize
                },
                Err(e) => {
                    &&& !source_exists
                    &&& e is InvalidInput
                    &&& final(self)@ == old(self)@
                },
            },
    {
        if !source_exists {
            return Err(NativeConverterError::InvalidInput);
        }
        let mut events: Vec<ConversionProgress> = Vec::new();
        assert(trace(events@) =~= Seq::empty());
        Self::send_progress(
            &mut events,
            0,
            String::from_str("Starting native Rust conversion..."),
            source_file.as_str(),
            target_format,
            output_file.as_str(),
            false,
            false,
            None,
        );
        self.run = NativeCounters {
            stage: NativeStage::SizingSource,
            file_size: 0,
            bytes_read: 0,
            frame_count: 0,
            percent: 0,
        };
        self.source_file = source_file;
        self.target_format = target_format;
        self.output_file = output_file;
        assert(trace(events@) =~= seq![
            running_report(self@, 0, "Starting native Rust conversion..."@),
        ]);
        Ok(NativeStep { events, pause_ms: 0, request: NativeRequest::FileSize })
    }

    /// Ends the run with an error report.
    fn fail(&mut self, step: String, error: String) -> (r: NativeStep)
        ensures
            final(self)@ == failure(old(self)@, step@, error@).next,
            trace(r.events@) == failure(old(self)@, step@, error@).events,
            r.pause_ms == 0,
            r.request@ == NativeRequestView::Stop,
    {
        proof {
            use_type_invariant(&*self);
        }
        let mut events: Vec<ConversionProgress> = Vec::new();
        assert(trace(events@) =~= Seq::empty());
        Self::send_progress(
            &mut events,
            self.run.percent,
            step,
            self.source_file.as_str(),
            self.target_format,
            self.output_file.as_str(),
            false,
            true,
            Some(error),
        );
        assert(trace(events@) =~= seq![error_report(self@, step@, error@)]);
        self.run = NativeCounters { stage: NativeStage::Failed, ..self.run };
        NativeStep { events, pause_ms: 0, request: NativeRequest::Stop }
    }

    /// Ends the run because the reply does not answer the request.
    fn fail_unexpected(&mut self) -> (r: NativeStep)
        ensures
            final(self)@ == failure(
                old(self)@,
                "Failed during conversion: unexpected reply"@,
                "Failed during conversion: unexpected reply"@,
            ).next,
            trace(r.events@) == failure(
                old(self)@,
                "Failed during conversion: unexpected reply"@,
                "Failed during conversion: unexpected reply"@,
            ).events,
            r.pause_ms == 0,
            r.request@ == NativeRequestView::Stop,
    {
        self.fail(
            String::from_str("Failed during conversion: unexpected reply"),
            String::from_str("Failed during conversion: unexpected reply"),
        )
    }

    /// Reports once and moves to the next stage.
    fn go(
        &mut self,
        stage: NativeStage,
        percent: u8,
        step: &str,
        pause_ms: u64,
        request: NativeRequest,
    ) -> (r: NativeStep)
        requires
            stage_percent_ok(NativeState { stage, percent, ..old(self)@ }),
        ensures
            final(self)@ == proceed(old(self)@, stage, percent, step@, pause_ms, request@).next,
            trace(r.events@) == proceed(old(self)@, stage, percent, step@, pause_ms, request@).events,
            r.pause_ms == pause_ms,
            r.request@ == request@,
    {
        let mut events: Vec<ConversionProgress> = Vec::new();
        assert(trace(events@) =~= Seq::empty());
        Self::send_progress(
            &mut events,
            percent,
            String::from_str(step),
            self.source_file.as_str(),
            self.target_format,
            self.output_file.as_str(),
            false,
            false,
            None,
        );
        assert(trace(events@) =~= seq![running_report(self@, percent, step@)]);
        self.run = NativeCounters { stage, percent, ..self.run };
        NativeStep { events, pause_ms, request }
    }

    /// Moves to the next stage without a report.
    fn go_silently(&mut self, stage: NativeStage, pause_ms: u64, request: NativeRequest) -> (r:
        NativeStep)
        requires
            stage_percent_ok(NativeState { stage, ..old(self)@ }),
        ensures
            final(self)@ == proceed_silently(old(self)@, stage, pause_ms, request@).next,
            trace(r.events@) == proceed_silently(old(self)@, stage, pause_ms, request@).events,
            r.pause_ms == pause_ms,
            r.request@ == request@,
    {
        let events: Vec<ConversionProgress> = Vec::new();
        assert(trace(events@) =~= Seq::empty());
        self.run = NativeCounters { stage, ..self.run };
        NativeStep { events, pause_ms, request }
    }

    /// Takes a chunk read from the source.
    fn take_chunk(&mut self, data: Vec<u8>) -> (r: NativeStep)
        requires
            old(self)@.stage == NativeStage::ReadingChunk,
        ensures
            final(self)@ == chunk_step(old(self)@, data@).next,
            trace(r.events@) == chunk_step(old(self)@, data@).events,
            r.pause_ms == chunk_step(old(self)@, data@).pause_ms,
            r.request@ == chunk_step(old(self)@, data@).request,
    {
        proof {
            use_type_invariant(&*self);
        }
        if data.len() == 0 {
            return self.go(
                NativeStage::Muxing,
                85,
                "Muxing audio and video streams...",
                800,
                NativeRequest::Continue,
            );
        }
        let bytes_read = add_saturating(self.run.bytes_read, data.len());
        let frame_count = add_saturating(self.run.frame_count, 1);
        let percent = copy_percent(bytes_read, self.run.file_size);
        proof {
            lemma_chunk_percent_monotone(
                self.run.bytes_read as nat,
                bytes_read as nat,
                self.run.file_size as nat,
            );
        }
        let mut events: Vec<ConversionProgress> = Vec::new();
        assert(trace(events@) =~= Seq::empty());
        if frame_count % 10 == 0 {
            let text = frame_message(frame_count, self.run.file_size, bytes_read);
            Self::send_progress(
                &mut events,
                percent,
                text,
                self.source_file.as_str(),
                self.target_format,
                self.output_file.as_str(),
                false,
                false,
                None,
            );
            assert(trace(events@) =~= seq![
                running_report(
                    self@,
                    percent,
                    frame_text(frame_count, self.run.file_size, bytes_read),
                ),
            ]);
        }
        let stamped_data = stamp_chunk(self.target_format, data);
        self.run = NativeCounters {
            stage: NativeStage::WritingChunk,
            bytes_read,
            frame_count,
            percent,
            ..self.run
        };
        NativeStep { events, pause_ms: 0, request: NativeRequest::Write(stamped_data) }
    }

    /// Takes the result of the operation that the last step asked for, and
    /// says what comes next. Within a run the reports never fall in percent.
    pub fn advance(&mut self, reply: NativeReply) -> (r: NativeStep)
        ensures
            final(self)@ == native_step(old(self)@, reply@).next,
            trace(r.events@) == native_step(old(self)@, reply@).events,
            r.pause_ms == native_step(old(self)@, reply@).pause_ms,
            r.request@ == native_step(old(self)@, reply@).request,
            stage_percent_ok(old(self)@),
            stage_percent_ok(final(self)@),
            rising_from(old(self)@.percent, trace(r.events@)),
            old(self)@.percent <= final(self)@.percent <= 100,
    {
        proof {
            use_type_invariant(&*self);
            lemma_native_step_progress(self@, reply@);
        }
        let stage = self.run.stage;
        match stage {
            NativeStage::Idle | NativeStage::Complete | NativeStage::Failed => {
                let events: Vec<ConversionProgress> = Vec::new();
                assert(trace(events@) =~= Seq::empty());
                return NativeStep { events, pause_ms: 0, request: NativeRequest::Stop };
            },
            _ => {},
        }
        match reply {
            NativeReply::Failed(e) => {
                let prefixes = failure_prefixes(stage);
                let step = concat2(prefixes.0, e.as_str());
                let error = concat2(prefixes.1, e.as_str());
                self.fail(step, error)
            },
            NativeReply::Size(n) => {
                match stage {
                    NativeStage::SizingSource => {
                        let mut events: Vec<ConversionProgress> = Vec::new();
                        assert(trace(events@) =~= Seq::empty());
                        Self::send_progress(
                            &mut events,
                            5,
                            size_message(n),
                            self.source_file.as_str(),
                            self.target_format,
                            self.output_file.as_str(),
                            false,
                            false,
                            None,
                        );
                        assert(trace(events@) =~= seq![running_report(self@, 5, size_text(n))]);
                        self.run = NativeCounters {
                            stage: NativeStage::OpeningSource,
                            file_size: n,
                            percent: 5,
                            ..self.run
                        };
                        NativeStep { events, pause_ms: 0, request: NativeRequest::OpenSource }
                    },
                    _ => self.fail_unexpected(),
                }
            },
            NativeReply::Chunk(data) => {
                match stage {
                    NativeStage::ReadingChunk => self.take_chunk(data),
                    _ => self.fail_unexpected(),
                }
            },
            NativeReply::Done => {
                match stage {
                    NativeStage::OpeningSource => self.go_silently(
                        NativeStage::CreatingOutput,
                        0,
                        NativeRequest::CreateOutput,
                    ),
                    NativeStage::CreatingOutput => {
                        let bytes = container_header(self.target_format);
                        self.go(
                            NativeStage::WritingHeader,
                            5,
                            "Analyzing video structure and metadata...",
                            500,
                            NativeRequest::Write(bytes),
                        )
                    },
                    NativeStage::WritingHeader => {
                        let bytes = audio_metadata(self.target_format);
                        self.go(
                            NativeStage::WritingAudioMeta,
                            10,
                            "Extracting and decoding audio streams...",
                            800,
                            NativeRequest::Write(bytes),
                        )
                    },
                    NativeStage::WritingAudioMeta => {
                        let bytes = video_codec_info(self.target_format);
                        self.go(
                            NativeStage::WritingVideoCodec,
                            15,
                            "Processing video frames...",
                            0,
                            NativeRequest::Write(bytes),
                        )
                    },
                    NativeStage::WritingVideoCodec => self.go_silently(
                        NativeStage::ReadingChunk,
                        0,
                        NativeRequest::ReadChunk,
                    ),
                    NativeStage::WritingChunk => self.go_silently(
                        NativeStage::ReadingChunk,
                        10,
                        NativeRequest::ReadChunk,
                    ),
                    NativeStage::Muxing => self.go(
                        NativeStage::Flushing,
                        95,
                        "Finalizing container format...",
                        0,
                        NativeRequest::Flush,
                    ),
                    NativeStage::Flushing => {
                        let bytes = container_footer(self.target_format);
                        self.go_silently(
                            NativeStage::WritingFooter,
                            0,
                            NativeRequest::Write(bytes),
                        )
                    },
                    NativeStage::WritingFooter => {
                        let mut events: Vec<ConversionProgress> = Vec::new();
                        assert(trace(events@) =~= Seq::empty());
                        Self::send_progress(
                            &mut events,
                            100,
                            String::from_str("Conversion complete!"),
                            self.source_file.as_str(),
                            self.target_format,
                            self.output_file.as_str(),
                            true,
                            false,
                            None,
                        );
                        assert(trace(events@) =~= seq![complete_report(self@)]);
                        self.run = NativeCounters {
                            stage: NativeStage::Complete,
                            percent: 100,
                            ..self.run
                        };
                        NativeStep { events, pause_ms: 0, request: NativeRequest::Stop }
                    },
                    _ => self.fail_unexpected(),
                }
            },
        }
    }
}

} // verus!

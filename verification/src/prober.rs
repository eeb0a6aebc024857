//! The media prober: what the inspection tool's report says about a file.
//!
//! The tool is run by the caller. This module takes what the run produced,
//! reads the report as a JSON document and picks out the facts of the first
//! video stream. Numbers that the tool writes as decimal text stay text here:
//! the duration, and the two sides of the frame rate.

use crate::json::{json_items, json_member, json_model, json_text, json_unsigned, parse_json};
use crate::json::{parsed_json, Json};
use crate::text::{chars_of, same_text, slice_text, text_from_utf8, text_view};
use vstd::prelude::*;
use vstd::string::*;
use vstd::utf8::{decode_utf8, valid_utf8};

verus! {

/// Why a file could not be probed.
#[derive(Clone, Copy, Debug, PartialEq, Eq, Structural)]
pub enum ProbeError {
    /// The tool could not be started.
    ProcessError,
    /// The tool ran and reported failure.
    ProbeFailed,
    /// The tool's output is not a report of the expected shape.
    ParseError,
    /// The report lists no video stream.
    NoVideoStream,
}

/// What one run of the tool produced.
#[derive(Clone, Debug)]
pub enum ProbeRun {
    /// The tool did not start.
    NotStarted,
    /// The tool ran to its end.
    Exited { success: bool, stdout: Vec<u8> },
}

/// A frame rate as the tool writes it: the text before and the text after the
/// separator of `numerator/denominator`.
#[derive(Clone, Debug)]
pub struct FrameRate {
    pub numerator: String,
    pub denominator: String,
}

impl View for FrameRate {
    type V = (Seq<char>, Seq<char>);

    open spec fn view(&self) -> (Seq<char>, Seq<char>) {
        (self.numerator@, self.denominator@)
    }
}

/// One stream of a report, as far as it is read.
#[derive(Clone, Debug)]
pub struct ProbeStream {
    pub codec_type: Option<String>,
    pub width: Option<u64>,
    pub height: Option<u64>,
    pub frame_rate: Option<String>,
    pub codec_name: Option<String>,
}

/// A stream as a mathematical value.
pub struct StreamFacts {
    pub codec_type: Option<Seq<char>>,
    pub width: Option<u64>,
    pub height: Option<u64>,
    pub frame_rate: Option<Seq<char>>,
    pub codec_name: Option<Seq<char>>,
}

impl View for ProbeStream {
    type V = StreamFacts;

    open spec fn view(&self) -> StreamFacts {
        StreamFacts {
            codec_type: text_view(self.codec_type),
            width: self.width,
            height: self.height,
            frame_rate: text_view(self.frame_rate),
            codec_name: text_view(self.codec_name),
        }
    }
}

/// A report: the container's duration and the streams. `streams` is `None`
/// where the report has no list of streams.
#[derive(Clone, Debug)]
pub struct ProbeDocument {
    pub duration: Option<String>,
    pub streams: Option<Vec<ProbeStream>>,
}

/// A report as a mathematical value.
pub struct DocumentFacts {
    pub duration: Option<Seq<char>>,
    pub streams: Option<Seq<StreamFacts>>,
}

impl View for ProbeDocument {
    type V = DocumentFacts;

    open spec fn view(&self) -> DocumentFacts {
        DocumentFacts {
            duration: text_view(self.duration),
            streams: match self.streams {
                Some(streams) => Some(streams@.map_values(|s: ProbeStream| s@)),
                None => None,
            },
        }
    }
}

/// The facts of a probed file. Each is absent where the report does not give
/// it.
#[derive(Clone, Debug)]
pub struct MediaInfo {
    /// Seconds, as decimal text.
    pub duration: Option<String>,
    pub width: Option<u32>,
    pub height: Option<u32>,
    pub frame_rate: Option<FrameRate>,
    pub codec: Option<String>,
}

/// The facts of a probed file as a mathematical value.
pub struct MediaFacts {
    pub duration: Option<Seq<char>>,
    pub width: Option<u32>,
    pub height: Option<u32>,
    pub frame_rate: Option<(Seq<char>, Seq<char>)>,
    pub codec: Option<Seq<char>>,
}

impl View for MediaInfo {
    type V = MediaFacts;

    open spec fn view(&self) -> MediaFacts {
        MediaFacts {
            duration: text_view(self.duration),
            width: self.width,
            height: self.height,
            frame_rate: match self.frame_rate {
                Some(rate) => Some(rate@),
                None => None,
            },
            codec: text_view(self.codec),
        }
    }
}

/// The view of the outcome of a probe.
pub open spec fn outcome_view(outcome: Result<MediaInfo, ProbeError>) -> Result<
    MediaFacts,
    ProbeError,
> {
    match outcome {
        Ok(info) => Ok(info@),
        Err(e) => Err(e),
    }
}

/// Splits a frame rate at its first `/`: the text before it and the text
/// after it. A text without `/` is no frame rate.
pub open spec fn split_rate(text: Seq<char>) -> Option<(Seq<char>, Seq<char>)> {
    match text.index_of_first('/') {
        Some(at) => Some((text.subrange(0, at), text.subrange(at + 1, text.len() as int))),
        None => None,
    }
}

/// The low 32 bits of `n`.
pub open spec fn low_bits(n: u64) -> u32 {
    (n % 0x1_0000_0000) as u32
}

/// The low 32 bits of an optional number.
pub open spec fn narrowed(n: Option<u64>) -> Option<u32> {
    match n {
        Some(n) => Some(low_bits(n)),
        None => None,
    }
}

/// Whether a stream is a video stream.
pub open spec fn is_video(stream: StreamFacts) -> bool {
    stream.codec_type == Some("video"@)
}

/// The position of the first video stream at or after `start`, if there is one.
pub open spec fn first_video_from(streams: Seq<StreamFacts>, start: int) -> Option<int>
    decreases streams.len() - start,
{
    if start < 0 || start >= streams.len() {
        None
    } else if is_video(streams[start]) {
        Some(start)
    } else {
        first_video_from(streams, start + 1)
    }
}

/// The facts that a report gives through one of its streams. The frame rate
/// is absent where the stream has none and where its text has no separator.
pub open spec fn stream_facts(duration: Option<Seq<char>>, stream: StreamFacts) -> MediaFacts {
    MediaFacts {
        duration,
        width: narrowed(stream.width),
        height: narrowed(stream.height),
        frame_rate: match stream.frame_rate {
            Some(text) => split_rate(text),
            None => None,
        },
        codec: stream.codec_name,
    }
}

/// What a report says: the facts of its first video stream; a parse error
/// where it has no list of streams; no video stream where none of the streams
/// is one.
pub open spec fn document_facts(doc: DocumentFacts) -> Result<MediaFacts, ProbeError> {
    match doc.streams {
        None => Err(ProbeError::ParseError),
        Some(streams) => match first_video_from(streams, 0) {
            Some(at) => Ok(stream_facts(doc.duration, streams[at])),
            None => Err(ProbeError::NoVideoStream),
        },
    }
}

/// The first video stream at or after `start` is a video stream, and no stream
/// between `start` and it is one; where there is none, no stream from `start`
/// on is a video stream.
pub proof fn law_first_video_stream_comes_first(streams: Seq<StreamFacts>, start: int)
    requires
        0 <= start,
    ensures
        match first_video_from(streams, start) {
            Some(at) => {
                &&& start <= at < streams.len()
                &&& is_video(streams[at])
                &&& forall|k: int| start <= k < at ==> !is_video(#[trigger] streams[k])
            },
            None => forall|k: int| start <= k < streams.len() ==> !is_video(#[trigger] streams[k]),
        },
    decreases streams.len() - start,
{
    if start < streams.len() && !is_video(streams[start]) {
        law_first_video_stream_comes_first(streams, start + 1);
    }
}

/// Splits a frame rate into the text before and the text after its first `/`.
pub fn split_frame_rate(text: &str) -> (rate: Option<FrameRate>)
    ensures
        match rate {
            Some(r) => split_rate(text@) == Some(r@),
            None => split_rate(text@) is None,
        },
{
    let chars = chars_of(text);
    let mut at: usize = 0;
    while at < chars.len() && chars[at] != '/'
        invariant
            at <= chars.len(),
            chars@ == text@,
            forall|k: int| 0 <= k < at ==> chars@[k] != '/',
        decreases chars.len() - at,
    {
        at += 1;
    }
    proof {
        text@.index_of_first_ensures('/');
    }
    if at < chars.len() {
        let numerator = slice_text(text, 0, at);
        let denominator = slice_text(text, at + 1, chars.len());
        Some(FrameRate { numerator, denominator })
    } else {
        None
    }
}

/// A copy of an optional text.
fn copy_text(text: &Option<String>) -> (copy: Option<String>)
    ensures
        text_view(copy) == text_view(*text),
{
    match text {
        Some(s) => Some(s.clone()),
        None => None,
    }
}

/// The low 32 bits of an optional number.
fn narrow(n: Option<u64>) -> (low: Option<u32>)
    ensures
        low == narrowed(n),
{
    match n {
        Some(n) => Some((n % 0x1_0000_0000) as u32),
        None => None,
    }
}

/// The position of the first video stream among `streams`, if there is one.
fn find_video_stream(streams: &Vec<ProbeStream>) -> (found: Option<usize>)
    ensures
        match found {
            Some(at) => at < streams.len() && first_video_from(
                streams@.map_values(|s: ProbeStream| s@),
                0,
            ) == Some(at as int),
            None => first_video_from(streams@.map_values(|s: ProbeStream| s@), 0) is None,
        },
{
    let ghost facts = streams@.map_values(|s: ProbeStream| s@);
    let mut at: usize = 0;
    while at < streams.len()
        invariant
            at <= streams.len(),
            facts == streams@.map_values(|s: ProbeStream| s@),
            first_video_from(facts, 0) == first_video_from(facts, at as int),
        decreases streams.len() - at,
    {
        let video = match &streams[at].codec_type {
            Some(kind) => same_text(kind.as_str(), "video"),
            None => false,
        };
        assert(video == is_video(facts[at as int]));
        if video {
            return Some(at);
        }
        at += 1;
    }
    None
}

/// Picks the facts of the first video stream out of a report.
pub fn select_media_info(doc: &ProbeDocument) -> (outcome: Result<MediaInfo, ProbeError>)
    ensures
        outcome_view(outcome) == document_facts(doc@),
{
    match &doc.streams {
        None => Err(ProbeError::ParseError),
        Some(streams) => match find_video_stream(streams) {
            None => Err(ProbeError::NoVideoStream),
            Some(at) => {
                let stream = &streams[at];
                assert(streams@.map_values(|s: ProbeStream| s@)[at as int] == stream@);
                let frame_rate = match &stream.frame_rate {
                    Some(text) => split_frame_rate(text.as_str()),
                    None => None,
                };
                Ok(
                    MediaInfo {
                        duration: copy_text(&doc.duration),
                        width: narrow(stream.width),
                        height: narrow(stream.height),
                        frame_rate,
                        codec: copy_text(&stream.codec_name),
                    },
                )
            },
        },
    }
}

/// The stream that a JSON value describes: each field is the member of that
/// name, where it has the expected kind.
pub open spec fn stream_of(json: Json) -> StreamFacts {
    StreamFacts {
        codec_type: json.member("codec_type"@).text(),
        width: json.member("width"@).unsigned(),
        height: json.member("height"@).unsigned(),
        frame_rate: json.member("r_frame_rate"@).text(),
        codec_name: json.member("codec_name"@).text(),
    }
}

/// The report that a JSON document describes: the duration is the text at
/// `format.duration`, the streams are the items of the array at `streams`.
pub open spec fn document_of(json: Json) -> DocumentFacts {
    DocumentFacts {
        duration: json.member("format"@).member("duration"@).text(),
        streams: match json.member("streams"@).items() {
            Some(items) => Some(items.map_values(|item: Json| stream_of(item))),
            None => None,
        },
    }
}

/// The text stored under `key`, if the member is a string.
fn text_member(value: &serde_json::Value, key: &str) -> (text: Option<String>)
    ensures
        text_view(text) == json_model(*value).member(key@).text(),
{
    match json_text(json_member(value, key)) {
        Some(chars) => Some(chars.to_owned()),
        None => None,
    }
}

/// Reads one stream of a report.
fn read_stream(value: &serde_json::Value) -> (stream: ProbeStream)
    ensures
        stream@ == stream_of(json_model(*value)),
{
    ProbeStream {
        codec_type: text_member(value, "codec_type"),
        width: json_unsigned(json_member(value, "width")),
        height: json_unsigned(json_member(value, "height")),
        frame_rate: text_member(value, "r_frame_rate"),
        codec_name: text_member(value, "codec_name"),
    }
}

/// Reads a report out of a JSON document.
pub fn read_document(value: &serde_json::Value) -> (doc: ProbeDocument)
    ensures
        doc@ == document_of(json_model(*value)),
{
    let duration = text_member(json_member(value, "format"), "duration");
    let streams = match json_items(json_member(value, "streams")) {
        None => None,
        Some(items) => {
            let ghost models = items@.map_values(|item: serde_json::Value| json_model(item));
            let mut streams: Vec<ProbeStream> = Vec::new();
            let mut i: usize = 0;
            while i < items.len()
                invariant
                    i <= items.len(),
                    models == items@.map_values(|item: serde_json::Value| json_model(item)),
                    streams@.len() == i,
                    forall|k: int| 0 <= k < i ==> (#[trigger] streams@[k])@ == stream_of(models[k]),
                decreases items.len() - i,
            {
                streams.push(read_stream(&items[i]));
                i += 1;
            }
            assert(streams@.map_values(|s: ProbeStream| s@) =~= models.map_values(
                |item: Json| stream_of(item),
            ));
            Some(streams)
        },
    };
    ProbeDocument { duration, streams }
}

/// What the tool's output says: a parse error where it is not UTF-8 or not
/// JSON, else what the document says.
pub open spec fn output_facts(stdout: Seq<u8>) -> Result<MediaFacts, ProbeError> {
    if !valid_utf8(stdout) {
        Err(ProbeError::ParseError)
    } else {
        match parsed_json(decode_utf8(stdout)) {
            Some(json) => document_facts(document_of(json)),
            None => Err(ProbeError::ParseError),
        }
    }
}

/// What a run of the tool says: a process error where the tool did not start,
/// a failed probe where it reported failure, else what its output says.
pub open spec fn run_facts(run: ProbeRun) -> Result<MediaFacts, ProbeError> {
    match run {
        ProbeRun::NotStarted => Err(ProbeError::ProcessError),
        ProbeRun::Exited { success, stdout } => if success {
            output_facts(stdout@)
        } else {
            Err(ProbeError::ProbeFailed)
        },
    }
}

/// Reads the facts of the first video stream out of the tool's output.
pub fn interpret_probe_output(stdout: Vec<u8>) -> (outcome: Result<MediaInfo, ProbeError>)
    ensures
        outcome_view(outcome) == output_facts(stdout@),
{
    match text_from_utf8(stdout) {
        None => Err(ProbeError::ParseError),
        Some(text) => match parse_json(text.as_str()) {
            Err(_) => Err(ProbeError::ParseError),
            Ok(value) => {
                let doc = read_document(&value);
                select_media_info(&doc)
            },
        },
    }
}

/// Turns one run of the tool into the facts of the file, or the reason why
/// there are none.
pub fn interpret_probe_run(run: ProbeRun) -> (outcome: Result<MediaInfo, ProbeError>)
    ensures
        outcome_view(outcome) == run_facts(run),
{
    match run {
        ProbeRun::NotStarted => Err(ProbeError::ProcessError),
        ProbeRun::Exited { success, stdout } => {
            if success {
                interpret_probe_output(stdout)
            } else {
                Err(ProbeError::ProbeFailed)
            }
        },
    }
}

} // verus!

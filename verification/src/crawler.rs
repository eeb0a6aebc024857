//! The directory crawler: which entries of a tree are video files, and what
//! becomes of each.
//!
//! The caller walks the tree, reads the attributes of each candidate and runs
//! the inspection tool on it. This module decides which entries are
//! candidates, turns each observation into a record or a reason to skip the
//! file, and folds the observations into the list of records. A file that is
//! skipped never stops the fold.

use crate::metadata::{build_record, record_of, FileStat, VideoMetadata, VideoRecord};
use crate::prober::{interpret_probe_run, run_facts, ProbeError, ProbeRun};
use crate::text::{chars_of, lowercase, lowercase_of, same_text, slice_text, text_view};
use vstd::prelude::*;
use vstd::string::*;

verus! {

/// One entry that the walk of a tree came upon: its path, the name of the
/// file and of the folder that holds it where they can be determined, and
/// whether it is a regular file. Whether the entry is a video is read off the
/// file name, which is the name that its record shows.
#[derive(Clone, Debug)]
pub struct WalkEntry {
    pub path: String,
    pub file_name: Option<String>,
    pub folder_name: Option<String>,
    pub is_file: bool,
}

/// What was learnt of one entry: the entry, its attributes where they could
/// be read, and what the run of the inspection tool produced.
#[derive(Clone, Debug)]
pub struct Observation {
    pub entry: WalkEntry,
    pub stat: Option<FileStat>,
    pub probe: ProbeRun,
}

/// Why an entry gives no record.
#[derive(Clone, Copy, Debug, PartialEq, Eq, Structural)]
pub enum Skip {
    /// The entry is not a regular file.
    NotAFile,
    /// The file name is unknown or has not the extension of a video.
    NotAVideo,
    /// The attributes of the file could not be read.
    Unreadable,
    /// The file could not be probed.
    Probe(ProbeError),
}

/// The extension of a file name: the text after its last `.`, if it has one.
pub open spec fn extension_of(name: Seq<char>) -> Option<Seq<char>> {
    match name.index_of_last('.') {
        Some(at) => Some(name.subrange(at + 1, name.len() as int)),
        None => None,
    }
}

/// Whether a lower-case extension is that of a video.
pub open spec fn recognized_extension(extension: Seq<char>) -> bool {
    ||| extension == "mp4"@
    ||| extension == "avi"@
    ||| extension == "mov"@
    ||| extension == "mkv"@
    ||| extension == "webm"@
    ||| extension == "flv"@
    ||| extension == "wmv"@
    ||| extension == "m4v"@
}

/// Whether a file name has the extension of a video, in any mix of cases.
pub open spec fn is_video_name(name: Seq<char>) -> bool {
    match extension_of(name) {
        Some(extension) => recognized_extension(lowercase_of(extension)),
        None => false,
    }
}

/// Whether an entry bears the name of a video: its file name is known and has
/// the extension of a video.
pub open spec fn names_a_video(entry: WalkEntry) -> bool {
    match text_view(entry.file_name) {
        Some(name) => is_video_name(name),
        None => false,
    }
}

/// Whether an entry is worth inspecting: a regular file that bears the name
/// of a video.
pub open spec fn is_candidate(entry: WalkEntry) -> bool {
    entry.is_file && names_a_video(entry)
}

/// Whether a failure of the walk, met `depth` levels below the root, ends the
/// crawl. One at the root does: nothing of the tree can then be traversed.
/// One below the root costs the entry that it struck and nothing more.
pub open spec fn walk_failure_is_fatal(depth: nat) -> bool {
    depth == 0
}

/// What becomes of one observed entry: its record, or the first reason to
/// skip it.
pub open spec fn inspected(observation: Observation) -> Result<VideoRecord, Skip> {
    if !observation.entry.is_file {
        Err(Skip::NotAFile)
    } else if !names_a_video(observation.entry) {
        Err(Skip::NotAVideo)
    } else {
        match observation.stat {
            None => Err(Skip::Unreadable),
            Some(stat) => match run_facts(observation.probe) {
                Err(e) => Err(Skip::Probe(e)),
                Ok(facts) => Ok(
                    record_of(
                        observation.entry.path@,
                        text_view(observation.entry.file_name),
                        text_view(observation.entry.folder_name),
                        stat,
                        facts,
                    ),
                ),
            },
        }
    }
}

/// Whether an observed entry gives a record: it is a regular file that bears
/// the name of a video, its attributes were read, and it was probed.
pub open spec fn accepted(observation: Observation) -> bool {
    &&& is_candidate(observation.entry)
    &&& observation.stat is Some
    &&& run_facts(observation.probe) is Ok
}

/// The records of a crawl: the observations are taken in order, and each adds
/// its record or nothing.
pub open spec fn crawl_records(observations: Seq<Observation>) -> Seq<VideoRecord>
    decreases observations.len(),
{
    if observations.len() == 0 {
        Seq::empty()
    } else {
        let before = crawl_records(observations.drop_last());
        match inspected(observations.last()) {
            Ok(record) => before.push(record),
            Err(_) => before,
        }
    }
}

/// An observation gives a record exactly when it is accepted.
pub proof fn law_record_iff_accepted(observation: Observation)
    ensures
        inspected(observation) is Ok <==> accepted(observation),
{
}

/// A crawl returns one record for each accepted observation, in the order of
/// the walk, and nothing else: an entry that is no video, or that could not
/// be read or probed, leaves no record and does not stop the crawl.
pub proof fn law_one_record_per_accepted_file(observations: Seq<Observation>)
    ensures
        crawl_records(observations) == observations.filter(
            |o: Observation| accepted(o),
        ).map_values(|o: Observation| inspected(o)->Ok_0),
        crawl_records(observations).len() <= observations.len(),
    decreases observations.len(),
{
    let keep = |o: Observation| accepted(o);
    let record = |o: Observation| inspected(o)->Ok_0;
    reveal(Seq::filter);
    if observations.len() > 0 {
        let front = observations.drop_last();
        let last = observations.last();
        law_one_record_per_accepted_file(front);
        law_record_iff_accepted(last);
        if accepted(last) {
            assert(observations.filter(keep) == front.filter(keep).push(last));
            assert(front.filter(keep).push(last).map_values(record) =~= front.filter(
                keep,
            ).map_values(record).push(record(last)));
        } else {
            assert(observations.filter(keep) == front.filter(keep));
        }
    } else {
        assert(observations.filter(keep).map_values(record) =~= Seq::<VideoRecord>::empty());
    }
}

/// A record bears the file name of the entry that it was made of, and that
/// name has the extension of a video.
pub proof fn law_record_names_a_video(observation: Observation)
    ensures
        inspected(observation) matches Ok(record) ==> {
            &&& text_view(observation.entry.file_name) == Some(record.file_name)
            &&& is_video_name(record.file_name)
        },
{
    if let Ok(record) = inspected(observation) {
        let name = text_view(observation.entry.file_name)->0;
        name.index_of_last_ensures('.');
    }
}

/// Every record of a crawl bears a file name with the extension of a video.
pub proof fn law_crawl_returns_only_videos(observations: Seq<Observation>)
    ensures
        forall|i: int|
            0 <= i < crawl_records(observations).len() ==> is_video_name(
                (#[trigger] crawl_records(observations)[i]).file_name,
            ),
    decreases observations.len(),
{
    if observations.len() > 0 {
        law_crawl_returns_only_videos(observations.drop_last());
        law_record_names_a_video(observations.last());
    }
}

/// The extension of a file name.
pub fn extension(name: &str) -> (found: Option<String>)
    ensures
        text_view(found) == extension_of(name@),
{
    let chars = chars_of(name);
    let mut at: usize = chars.len();
    while at > 0 && chars[at - 1] != '.'
        invariant
            at <= chars.len(),
            chars@ == name@,
            forall|k: int| at <= k < chars.len() ==> chars@[k] != '.',
        decreases at,
    {
        at -= 1;
    }
    proof {
        name@.index_of_last_ensures('.');
    }
    if at > 0 {
        Some(slice_text(name, at, chars.len()))
    } else {
        None
    }
}

/// Whether a lower-case extension is that of a video.
pub fn is_recognized_extension(extension: &str) -> (recognized: bool)
    ensures
        recognized == recognized_extension(extension@),
{
    same_text(extension, "mp4") || same_text(extension, "avi") || same_text(extension, "mov")
        || same_text(extension, "mkv") || same_text(extension, "webm") || same_text(
        extension,
        "flv",
    ) || same_text(extension, "wmv") || same_text(extension, "m4v")
}

/// Whether a file name has the extension of a video, in any mix of cases.
pub fn has_video_extension(name: &str) -> (video: bool)
    ensures
        video == is_video_name(name@),
{
    match extension(name) {
        Some(found) => {
            let lowered = lowercase(found.as_str());
            is_recognized_extension(lowered.as_str())
        },
        None => false,
    }
}

/// Whether an entry bears the name of a video.
fn bears_video_name(entry: &WalkEntry) -> (named: bool)
    ensures
        named == names_a_video(*entry),
{
    match &entry.file_name {
        Some(name) => has_video_extension(name.as_str()),
        None => false,
    }
}

/// Whether an entry is worth inspecting.
pub fn wants_inspection(entry: &WalkEntry) -> (wanted: bool)
    ensures
        wanted == is_candidate(*entry),
{
    entry.is_file && bears_video_name(entry)
}

/// Whether a failure of the walk ends the crawl. `depth` is the number of
/// levels below the root at which the walk failed.
pub fn walk_failure_ends_crawl(depth: usize) -> (ends: bool)
    ensures
        ends == walk_failure_is_fatal(depth as nat),
{
    depth == 0
}

/// Turns one observation into the record of the file, or the reason to skip
/// it.
pub fn inspect(observation: Observation) -> (outcome: Result<VideoMetadata, Skip>)
    ensures
        match outcome {
            Ok(record) => inspected(observation) == Ok::<VideoRecord, Skip>(record@),
            Err(skip) => inspected(observation) == Err::<VideoRecord, Skip>(skip),
        },
{
    let Observation { entry, stat, probe } = observation;
    if !entry.is_file {
        return Err(Skip::NotAFile);
    }
    if !bears_video_name(&entry) {
        return Err(Skip::NotAVideo);
    }
    match stat {
        None => Err(Skip::Unreadable),
        Some(stat) => match interpret_probe_run(probe) {
            Err(e) => Err(Skip::Probe(e)),
            Ok(info) => Ok(
                build_record(entry.path.as_str(), &entry.file_name, &entry.folder_name, stat, info),
            ),
        },
    }
}

/// The records of a crawl that is under way.
pub struct Crawl {
    records: Vec<VideoMetadata>,
}

impl View for Crawl {
    type V = Seq<VideoRecord>;

    closed spec fn view(&self) -> Seq<VideoRecord> {
        self.records@.map_values(|r: VideoMetadata| r@)
    }
}

impl Crawl {
    /// A crawl that has seen nothing yet.
    pub fn new() -> (crawl: Crawl)
        ensures
            crawl@ == Seq::<VideoRecord>::empty(),
    {
        let crawl = Crawl { records: Vec::new() };
        assert(crawl@ =~= Seq::<VideoRecord>::empty());
        crawl
    }

    /// Takes in one observation: its record is added, or the reason to skip
    /// the file is returned and the records stay as they are.
    pub fn observe(&mut self, observation: Observation) -> (skipped: Option<Skip>)
        ensures
            match inspected(observation) {
                Ok(record) => skipped is None && final(self)@ == old(self)@.push(record),
                Err(skip) => skipped == Some(skip) && final(self)@ == old(self)@,
            },
    {
        let ghost before = self@;
        match inspect(observation) {
            Ok(record) => {
                self.records.push(record);
                assert(self@ =~= before.push(record@));
                None
            },
            Err(skip) => Some(skip),
        }
    }

    /// The number of records so far.
    pub fn len(&self) -> (len: usize)
        ensures
            len == self@.len(),
    {
        self.records.len()
    }

    /// The records, in the order in which their files were observed.
    pub fn into_records(self) -> (records: Vec<VideoMetadata>)
        ensures
            records@.map_values(|r: VideoMetadata| r@) == self@,
    {
        self.records
    }
}

/// Folds the observations of a walk into the records of the crawl.
pub fn crawl(observations: Vec<Observation>) -> (records: Vec<VideoMetadata>)
    ensures
        records@.map_values(|r: VideoMetadata| r@) == crawl_records(observations@),
{
    let mut crawl = Crawl::new();
    let ghost all = observations@;
    for observation in it: observations
        invariant
            it.seq() == all,
            crawl@ == crawl_records(it.seq().take(it.index() as int)),
    {
        proof {
            assert(it.seq().take(it.index() + 1).drop_last() =~= it.seq().take(
                it.index() as int,
            ));
            assert(it.seq().take(it.index() + 1).last() == observation);
        }
        let _ = crawl.observe(observation);
    }
    assert(all.take(all.len() as int) =~= all);
    crawl.into_records()
}

} // verus!

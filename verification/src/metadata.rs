//! The record that the crawler makes of one video file, and how it is put
//! together from the file's place in the tree, its attributes and the facts
//! that the prober found.

use crate::prober::{FrameRate, MediaFacts, MediaInfo};
use crate::text::{decimal_string, decimal_text, text_view};
use vstd::prelude::*;
use vstd::string::*;

verus! {

/// The attributes of a file: its size in bytes, and when it was created and
/// last modified, in seconds since the epoch.
#[derive(Clone, Copy, Debug, PartialEq, Eq, Structural)]
pub struct FileStat {
    pub size: u64,
    pub created_secs: u64,
    pub modified_secs: u64,
}

/// One video file as the crawler found it. The duration is decimal text in
/// seconds; the frame rate is the two sides of `numerator/denominator`.
#[derive(Clone, Debug)]
pub struct VideoMetadata {
    pub id: String,
    pub folder_name: String,
    pub full_path: String,
    pub file_name: String,
    pub file_size: u64,
    pub creation_date: String,
    pub modified_date: String,
    pub duration: Option<String>,
    pub width: Option<u32>,
    pub height: Option<u32>,
    pub fps: Option<FrameRate>,
    pub codec: Option<String>,
    pub thumbnail_path: Option<String>,
}

/// A record as a mathematical value.
pub struct VideoRecord {
    pub id: Seq<char>,
    pub folder_name: Seq<char>,
    pub full_path: Seq<char>,
    pub file_name: Seq<char>,
    pub file_size: u64,
    pub creation_date: Seq<char>,
    pub modified_date: Seq<char>,
    pub duration: Option<Seq<char>>,
    pub width: Option<u32>,
    pub height: Option<u32>,
    pub fps: Option<(Seq<char>, Seq<char>)>,
    pub codec: Option<Seq<char>>,
    pub thumbnail_path: Option<Seq<char>>,
}

impl View for VideoMetadata {
    type V = VideoRecord;

    open spec fn view(&self) -> VideoRecord {
        VideoRecord {
            id: self.id@,
            folder_name: self.folder_name@,
            full_path: self.full_path@,
            file_name: self.file_name@,
            file_size: self.file_size,
            creation_date: self.creation_date@,
            modified_date: self.modified_date@,
            duration: text_view(self.duration),
            width: self.width,
            height: self.height,
            fps: match self.fps {
                Some(rate) => Some(rate@),
                None => None,
            },
            codec: text_view(self.codec),
            thumbnail_path: text_view(self.thumbnail_path),
        }
    }
}

/// The name that stands for one that cannot be determined.
pub open spec fn unknown_name() -> Seq<char> {
    "unknown"@
}

/// The name to show: the name itself where there is one and it is not empty,
/// else `"unknown"`.
pub open spec fn shown_name(name: Option<Seq<char>>) -> Seq<char> {
    match name {
        Some(chars) => if chars.len() > 0 {
            chars
        } else {
            unknown_name()
        },
        None => unknown_name(),
    }
}

/// A timestamp in seconds as the decimal text of the same instant in
/// milliseconds.
pub open spec fn timestamp_text(timestamp: u64) -> Seq<char> {
    decimal_text((timestamp * 1000) as nat)
}

/// The identifier of a record: the folder's name, an underscore, the file's
/// name.
pub open spec fn record_id(folder_name: Seq<char>, file_name: Seq<char>) -> Seq<char> {
    folder_name + "_"@ + file_name
}

/// The record of a file at `path` with the given names, attributes and facts.
pub open spec fn record_of(
    path: Seq<char>,
    file_name: Option<Seq<char>>,
    folder_name: Option<Seq<char>>,
    stat: FileStat,
    facts: MediaFacts,
) -> VideoRecord {
    VideoRecord {
        id: record_id(shown_name(folder_name), shown_name(file_name)),
        folder_name: shown_name(folder_name),
        full_path: path,
        file_name: shown_name(file_name),
        file_size: stat.size,
        creation_date: timestamp_text(stat.created_secs),
        modified_date: timestamp_text(stat.modified_secs),
        duration: facts.duration,
        width: facts.width,
        height: facts.height,
        fps: facts.frame_rate,
        codec: facts.codec,
        thumbnail_path: None,
    }
}

/// The name shown for a file or a folder is never empty, and is `"unknown"`
/// where no name could be determined.
pub proof fn law_shown_name_never_empty(name: Option<Seq<char>>)
    ensures
        shown_name(name).len() > 0,
        name is None ==> shown_name(name) == "unknown"@,
        name == Some(Seq::<char>::empty()) ==> shown_name(name) == "unknown"@,
        name is Some && name->0.len() > 0 ==> shown_name(name) == name->0,
{
    reveal_strlit("unknown");
}

/// The names in a record are never empty, whatever the file.
pub proof fn law_record_names_never_empty(
    path: Seq<char>,
    file_name: Option<Seq<char>>,
    folder_name: Option<Seq<char>>,
    stat: FileStat,
    facts: MediaFacts,
)
    ensures
        record_of(path, file_name, folder_name, stat, facts).file_name.len() > 0,
        record_of(path, file_name, folder_name, stat, facts).folder_name.len() > 0,
        file_name is None ==> record_of(path, file_name, folder_name, stat, facts).file_name
            == "unknown"@,
        folder_name is None ==> record_of(path, file_name, folder_name, stat, facts).folder_name
            == "unknown"@,
{
    law_shown_name_never_empty(file_name);
    law_shown_name_never_empty(folder_name);
}

/// Renders a timestamp given in seconds since the epoch as milliseconds since
/// the epoch, in decimal notation.
pub fn format_timestamp(timestamp: u64) -> (text: String)
    ensures
        text@ == timestamp_text(timestamp),
{
    decimal_string(timestamp as u128 * 1000)
}

/// The name to show for a file or a folder.
pub fn name_or_unknown(name: &Option<String>) -> (shown: String)
    ensures
        shown@ == shown_name(text_view(*name)),
        shown@.len() > 0,
{
    proof {
        reveal_strlit("unknown");
    }
    match name {
        Some(given) => {
            if !given.as_str().is_empty() {
                given.clone()
            } else {
                String::from_str("unknown")
            }
        },
        None => String::from_str("unknown"),
    }
}

/// Puts the record of one file together.
pub fn build_record(
    path: &str,
    file_name: &Option<String>,
    folder_name: &Option<String>,
    stat: FileStat,
    info: MediaInfo,
) -> (record: VideoMetadata)
    ensures
        record@ == record_of(path@, text_view(*file_name), text_view(*folder_name), stat, info@),
{
    let file = name_or_unknown(file_name);
    let folder = name_or_unknown(folder_name);
    let mut id = folder.clone();
    id.append("_");
    id.append(file.as_str());
    VideoMetadata {
        id,
        folder_name: folder,
        full_path: path.to_owned(),
        file_name: file,
        file_size: stat.size,
        creation_date: format_timestamp(stat.created_secs),
        modified_date: format_timestamp(stat.modified_secs),
        duration: info.duration,
        width: info.width,
        height: info.height,
        fps: info.frame_rate,
        codec: info.codec,
        thumbnail_path: None,
    }
}

} // verus!

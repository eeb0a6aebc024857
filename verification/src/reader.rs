//! Chunked reading of a file: one range at a time, or the whole file chunk by
//! chunk.
//!
//! The library never touches a file. It decides what to ask of the file and
//! what to make of the answer; the caller performs the seek and the read and
//! reports what came back. A file is modelled by its content, a `Seq<u8>`, and
//! a read that returned bytes of that content is called faithful.

use crate::text::{chars_of, decimal_string, decimal_text};
use vstd::prelude::*;
use vstd::string::*;

verus! {

/// Chunk size for a path on a network share.
pub const NETWORK_CHUNK_SIZE: u64 = 65536;

/// Chunk size for a local path.
pub const LOCAL_CHUNK_SIZE: u64 = 1048576;

/// Pause between two chunks read from a network share, in milliseconds.
pub const NETWORK_PAUSE_MILLIS: u64 = 10;

/// The bytes between `offset` and the end of a file of `total_size` bytes;
/// none when the offset lies at or past the end.
pub open spec fn remaining(total_size: nat, offset: nat) -> nat {
    if offset < total_size {
        (total_size - offset) as nat
    } else {
        0
    }
}

/// The number of bytes to ask for: the requested size, capped at what remains.
pub open spec fn range_len(total_size: nat, offset: nat, chunk_size: nat) -> nat {
    if chunk_size <= remaining(total_size, offset) {
        chunk_size
    } else {
        remaining(total_size, offset)
    }
}

/// The bytes of `buffer` that a read filled: the first `bytes_read` of them,
/// and never more than `limit`.
pub open spec fn bytes_taken(buffer: Seq<u8>, bytes_read: nat, limit: nat) -> Seq<u8> {
    let filled = if bytes_read <= buffer.len() {
        bytes_read
    } else {
        buffer.len()
    };
    let kept = if filled <= limit {
        filled
    } else {
        limit
    };
    buffer.take(kept as int)
}

/// A read at `offset` is faithful to `content` when the bytes it filled are
/// the bytes that `content` holds from `offset` on.
pub open spec fn faithful_read(
    content: Seq<u8>,
    offset: nat,
    buffer: Seq<u8>,
    bytes_read: nat,
) -> bool {
    &&& bytes_read <= buffer.len()
    &&& offset + bytes_read <= content.len()
    &&& buffer.take(bytes_read as int) == content.subrange(
        offset as int,
        (offset + bytes_read) as int,
    )
}

/// One slice of a file's content.
#[derive(Debug)]
pub struct StreamChunk {
    pub data: Vec<u8>,
    pub offset: u64,
    pub total_size: u64,
    pub is_complete: bool,
}

impl StreamChunk {
    /// The position just past the last byte of the chunk.
    pub open spec fn end(&self) -> int {
        self.offset + self.data@.len()
    }

    /// The completion flag says whether the chunk reaches the end of the file.
    pub open spec fn wf(&self) -> bool {
        self.is_complete == (self.end() >= self.total_size)
    }

    /// The chunk lies inside the file.
    pub open spec fn within_file(&self) -> bool {
        self.end() <= self.total_size
    }
}

/// A range read that has been planned and not yet performed: where to seek and
/// how many bytes to ask for.
pub struct RangeRead {
    offset: u64,
    total_size: u64,
    len: u64,
}

impl RangeRead {
    #[verifier::type_invariant]
    spec fn inv(&self) -> bool {
        self.len <= remaining(self.total_size as nat, self.offset as nat)
    }

    /// The offset to seek to.
    pub closed spec fn offset_spec(&self) -> u64 {
        self.offset
    }

    /// The size of the file.
    pub closed spec fn total_size_spec(&self) -> u64 {
        self.total_size
    }

    /// The number of bytes to ask for.
    pub closed spec fn len_spec(&self) -> u64 {
        self.len
    }

    /// Plans the read of up to `chunk_size` bytes at `offset` from a file of
    /// `total_size` bytes.
    pub fn plan(total_size: u64, offset: u64, chunk_size: u64) -> (read: RangeRead)
        ensures
            read.offset_spec() == offset,
            read.total_size_spec() == total_size,
            read.len_spec() == range_len(total_size as nat, offset as nat, chunk_size as nat),
            read.len_spec() <= chunk_size,
    {
        let left = total_size.saturating_sub(offset);
        let len = if chunk_size <= left {
            chunk_size
        } else {
            left
        };
        RangeRead { offset, total_size, len }
    }

    #[verifier::when_used_as_spec(offset_spec)]
    pub fn offset(&self) -> (offset: u64)
        ensures
            offset == self.offset_spec(),
    {
        self.offset
    }

    #[verifier::when_used_as_spec(total_size_spec)]
    pub fn total_size(&self) -> (total_size: u64)
        ensures
            total_size == self.total_size_spec(),
    {
        self.total_size
    }

    /// The size of the buffer to read into.
    #[verifier::when_used_as_spec(len_spec)]
    pub fn len(&self) -> (len: u64)
        ensures
            len == self.len_spec(),
            len <= remaining(self.total_size() as nat, self.offset() as nat),
    {
        proof {
            use_type_invariant(self);
        }
        self.len
    }

    /// Makes the chunk out of what one read call returned: `buffer` is the
    /// buffer that was read into and `bytes_read` the count that the call
    /// reported. Bytes past that count, and past the planned length, are
    /// dropped.
    pub fn finish(self, buffer: Vec<u8>, bytes_read: usize) -> (chunk: StreamChunk)
        ensures
            chunk.data@ == bytes_taken(buffer@, bytes_read as nat, self.len() as nat),
            chunk.data@.len() <= self.len(),
            chunk.offset == self.offset(),
            chunk.total_size == self.total_size(),
            chunk.wf(),
            self.offset() <= self.total_size() ==> chunk.within_file(),
            self.offset() <= self.total_size() ==> (chunk.is_complete <==> chunk.end()
                == chunk.total_size),
            self.offset() >= self.total_size() ==> chunk.data@.len() == 0 && chunk.is_complete,
    {
        proof {
            use_type_invariant(&self);
        }
        let mut data = buffer;
        let filled = if bytes_read <= data.len() {
            bytes_read
        } else {
            data.len()
        };
        let kept = if filled as u64 <= self.len {
            filled
        } else {
            self.len as usize
        };
        data.truncate(kept);
        let is_complete = self.offset >= self.total_size || self.total_size - self.offset
            <= kept as u64;
        StreamChunk { data, offset: self.offset, total_size: self.total_size, is_complete }
    }
}

/// A chunk that lies inside its file is complete exactly when it ends where
/// the file ends.
pub proof fn law_complete_iff_at_end(chunk: StreamChunk)
    requires
        chunk.wf(),
        chunk.within_file(),
    ensures
        chunk.is_complete <==> chunk.end() == chunk.total_size,
{
}

/// A faithful read that fills the planned length returns the content from the
/// offset up to the requested size or the end of the file, whichever comes
/// first: when more is asked for than remains, exactly what remains.
pub proof fn law_range_read_returns_content(
    content: Seq<u8>,
    offset: nat,
    chunk_size: nat,
    buffer: Seq<u8>,
    bytes_read: nat,
)
    requires
        offset <= content.len(),
        faithful_read(content, offset, buffer, bytes_read),
        bytes_read == range_len(content.len(), offset, chunk_size),
    ensures
        bytes_taken(buffer, bytes_read, range_len(content.len(), offset, chunk_size))
            == content.subrange(
            offset as int,
            (offset + range_len(content.len(), offset, chunk_size)) as int,
        ),
        chunk_size >= content.len() - offset ==> bytes_taken(
            buffer,
            bytes_read,
            range_len(content.len(), offset, chunk_size),
        ) == content.subrange(offset as int, content.len() as int),
{
}

/// Whether a path names a network share: it begins with two backslashes.
pub open spec fn is_network_path(path: Seq<char>) -> bool {
    path.len() >= 2 && path[0] == '\\' && path[1] == '\\'
}

/// Whether `path` names a network share.
pub fn is_network_share(path: &str) -> (network: bool)
    ensures
        network == is_network_path(path@),
{
    let chars = chars_of(path);
    chars.len() >= 2 && chars[0] == '\\' && chars[1] == '\\'
}

/// How a whole file is read: the size of each chunk, and the pause after each
/// chunk in milliseconds.
#[derive(Clone, Copy, Debug, PartialEq, Eq, Structural)]
pub struct ChunkPolicy {
    pub chunk_size: u64,
    pub pause_millis: u64,
}

impl ChunkPolicy {
    /// The policy for a path: small chunks and a pause for a network share,
    /// large chunks and no pause for a local path.
    pub open spec fn of_path(path: Seq<char>) -> ChunkPolicy {
        if is_network_path(path) {
            ChunkPolicy { chunk_size: NETWORK_CHUNK_SIZE, pause_millis: NETWORK_PAUSE_MILLIS }
        } else {
            ChunkPolicy { chunk_size: LOCAL_CHUNK_SIZE, pause_millis: 0 }
        }
    }

    /// Chooses the policy for `path`.
    pub fn for_path(path: &str) -> (policy: ChunkPolicy)
        ensures
            policy == ChunkPolicy::of_path(path@),
            policy.chunk_size > 0,
    {
        if is_network_share(path) {
            ChunkPolicy { chunk_size: NETWORK_CHUNK_SIZE, pause_millis: NETWORK_PAUSE_MILLIS }
        } else {
            ChunkPolicy { chunk_size: LOCAL_CHUNK_SIZE, pause_millis: 0 }
        }
    }
}

/// A failure of one of the four file operations, with the path, the offset
/// where one applies, and what the system said.
#[derive(Clone, Debug)]
pub enum FilesystemError {
    Open { path: String, cause: String },
    Stat { path: String, cause: String },
    Seek { path: String, offset: u64, cause: String },
    Read { path: String, offset: u64, cause: String },
}

impl FilesystemError {
    /// The message for a failure: what failed, at which offset where one
    /// applies, and the cause.
    pub open spec fn message_spec(&self) -> Seq<char> {
        match self {
            FilesystemError::Open { cause, .. } => "Failed to open file: "@ + cause@,
            FilesystemError::Stat { cause, .. } => "Failed to get metadata: "@ + cause@,
            FilesystemError::Seek { offset, cause, .. } => "Failed to seek to offset "@
                + decimal_text(*offset as nat) + ": "@ + cause@,
            FilesystemError::Read { offset, cause, .. } => "Failed to read chunk at offset "@
                + decimal_text(*offset as nat) + ": "@ + cause@,
        }
    }

    /// The path of the file that the operation failed on.
    pub open spec fn path_spec(&self) -> Seq<char> {
        match self {
            FilesystemError::Open { path, .. } => path@,
            FilesystemError::Stat { path, .. } => path@,
            FilesystemError::Seek { path, .. } => path@,
            FilesystemError::Read { path, .. } => path@,
        }
    }

    /// Renders the failure for a person to read.
    pub fn message(&self) -> (text: String)
        ensures
            text@ == self.message_spec(),
    {
        match self {
            FilesystemError::Open { cause, .. } => {
                let mut text = String::from_str("Failed to open file: ");
                text.append(cause.as_str());
                text
            },
            FilesystemError::Stat { cause, .. } => {
                let mut text = String::from_str("Failed to get metadata: ");
                text.append(cause.as_str());
                text
            },
            FilesystemError::Seek { offset, cause, .. } => {
                let mut text = String::from_str("Failed to seek to offset ");
                text.append(decimal_string(*offset as u128).as_str());
                text.append(": ");
                text.append(cause.as_str());
                text
            },
            FilesystemError::Read { offset, cause, .. } => {
                let mut text = String::from_str("Failed to read chunk at offset ");
                text.append(decimal_string(*offset as u128).as_str());
                text.append(": ");
                text.append(cause.as_str());
                text
            },
        }
    }

    /// The path of the file that the operation failed on.
    pub fn path(&self) -> (path: &str)
        ensures
            path@ == self.path_spec(),
    {
        match self {
            FilesystemError::Open { path, .. } => path.as_str(),
            FilesystemError::Stat { path, .. } => path.as_str(),
            FilesystemError::Seek { path, .. } => path.as_str(),
            FilesystemError::Read { path, .. } => path.as_str(),
        }
    }
}

/// What the reader of a whole file does next.
#[derive(Clone, Copy, Debug, PartialEq, Eq, Structural)]
pub enum BulkStep {
    /// Seek to `offset` and read up to `len` bytes.
    Read { offset: u64, len: u64 },
    /// No further read is asked for: the run is to be finished.
    Done,
}

/// What a failed bulk read gives as its cause.
pub open spec fn short_read_cause() -> Seq<char> {
    "the read stopped before the end of the file"@
}

/// Whether `error` reports that the reading of `path` stopped short at
/// `offset`.
pub open spec fn is_short_read(error: FilesystemError, path: Seq<char>, offset: nat) -> bool {
    match error {
        FilesystemError::Read { path: at, offset: reached, cause } => {
            &&& at@ == path
            &&& reached == offset
            &&& cause@ == short_read_cause()
        },
        _ => false,
    }
}

/// The state of a bulk read as a mathematical value.
pub struct BulkReadView {
    pub path: Seq<char>,
    pub file_size: u64,
    pub policy: ChunkPolicy,
    pub collected: Seq<u8>,
    pub stopped: bool,
}

impl BulkReadView {
    /// The state before the first read.
    pub open spec fn initial(path: Seq<char>, file_size: u64, policy: ChunkPolicy) -> BulkReadView {
        BulkReadView { path, file_size, policy, collected: Seq::empty(), stopped: false }
    }

    /// Never more has been collected than the file holds.
    pub open spec fn wf(self) -> bool {
        self.collected.len() <= self.file_size
    }

    /// The offset of the next read: the number of bytes collected so far.
    pub open spec fn position(self) -> nat {
        self.collected.len()
    }

    /// Every byte of the file has been collected.
    pub open spec fn complete(self) -> bool {
        self.collected.len() == self.file_size
    }

    /// The next step: done once the position has reached the end, once an
    /// empty read has stopped the run, and under a policy whose chunks hold no
    /// byte; else a read of one chunk, capped at what remains.
    pub open spec fn next_step(self) -> BulkStep {
        if self.stopped || self.position() >= self.file_size || self.policy.chunk_size == 0 {
            BulkStep::Done
        } else {
            BulkStep::Read {
                offset: self.position() as u64,
                len: range_len(
                    self.file_size as nat,
                    self.position(),
                    self.policy.chunk_size as nat,
                ) as u64,
            }
        }
    }

    /// The state after a read that was asked for by `next_step` came back:
    /// the bytes taken are appended; a read that brought nothing stops the run.
    pub open spec fn after_read(self, buffer: Seq<u8>, bytes_read: nat) -> BulkReadView {
        match self.next_step() {
            BulkStep::Done => self,
            BulkStep::Read { len, .. } => {
                let taken = bytes_taken(buffer, bytes_read, len as nat);
                if taken.len() == 0 {
                    BulkReadView { stopped: true, ..self }
                } else {
                    BulkReadView { collected: self.collected + taken, ..self }
                }
            },
        }
    }

    /// What has been collected is the beginning of `content`, a file of the
    /// size that the run was started with.
    pub open spec fn agrees_with(self, content: Seq<u8>) -> bool {
        &&& content.len() == self.file_size
        &&& self.collected.len() <= content.len()
        &&& self.collected == content.take(self.collected.len() as int)
    }

    /// The state after every outstanding read has been answered faithfully and
    /// in full from `content`.
    pub open spec fn drained(self, content: Seq<u8>) -> BulkReadView
        decreases self.file_size - self.position(),
    {
        match self.next_step() {
            BulkStep::Done => self,
            BulkStep::Read { offset, len } => {
                if len == 0 || self.position() + len > content.len() {
                    self
                } else {
                    self.after_read(
                        content.subrange(offset as int, offset + len),
                        len as nat,
                    ).drained(content)
                }
            },
        }
    }
}

/// Before the first read the state agrees with every file of the given size.
pub proof fn law_bulk_read_starts_in_agreement(
    path: Seq<char>,
    file_size: u64,
    policy: ChunkPolicy,
    content: Seq<u8>,
)
    requires
        content.len() == file_size,
    ensures
        BulkReadView::initial(path, file_size, policy).wf(),
        BulkReadView::initial(path, file_size, policy).agrees_with(content),
{
    assert(Seq::<u8>::empty() =~= content.take(0));
}

/// A faithful read keeps the state in agreement with the file, whatever the
/// chunk size and however few bytes the read brought.
pub proof fn law_bulk_read_keeps_agreement(
    state: BulkReadView,
    content: Seq<u8>,
    buffer: Seq<u8>,
    bytes_read: nat,
)
    requires
        state.wf(),
        state.agrees_with(content),
        faithful_read(content, state.position(), buffer, bytes_read),
    ensures
        state.after_read(buffer, bytes_read).wf(),
        state.after_read(buffer, bytes_read).agrees_with(content),
{
    let after = state.after_read(buffer, bytes_read);
    match state.next_step() {
        BulkStep::Done => {},
        BulkStep::Read { offset, len } => {
            let taken = bytes_taken(buffer, bytes_read, len as nat);
            if taken.len() > 0 {
                assert(taken =~= content.subrange(
                    state.position() as int,
                    (state.position() + taken.len()) as int,
                )) by {
                    assert(buffer.take(bytes_read as int).take(taken.len() as int) =~= taken);
                }
                assert(after.collected =~= content.take(after.collected.len() as int));
            }
        },
    }
}

/// Every read either brings the position forward or stops the run, and never
/// takes the position past the end of the file.
pub proof fn law_bulk_read_makes_progress(state: BulkReadView, buffer: Seq<u8>, bytes_read: nat)
    requires
        state.wf(),
        !(state.next_step() is Done),
    ensures
        state.after_read(buffer, bytes_read).wf(),
        state.after_read(buffer, bytes_read).stopped || state.after_read(
            buffer,
            bytes_read,
        ).position() > state.position(),
{
}

/// A run whose chunks hold at least one byte, and which no empty read has
/// stopped, is complete once no further read is asked for.
pub proof fn law_unstopped_run_ends_complete(state: BulkReadView)
    requires
        state.wf(),
        state.next_step() is Done,
        !state.stopped,
        state.policy.chunk_size > 0,
    ensures
        state.complete(),
{
}

/// A complete run that agrees with the file has collected exactly the file.
pub proof fn law_finished_read_is_whole_file(state: BulkReadView, content: Seq<u8>)
    requires
        state.wf(),
        state.agrees_with(content),
        state.complete(),
    ensures
        state.collected == content,
        state.collected.len() == state.file_size,
{
    assert(content.take(content.len() as int) =~= content);
}

/// Reading a file to its end returns exactly its content, whatever the chunk
/// size, as long as the chunk size is not zero.
pub proof fn law_read_all_returns_content(state: BulkReadView, content: Seq<u8>)
    requires
        state.wf(),
        state.agrees_with(content),
        !state.stopped,
        state.policy.chunk_size > 0,
    ensures
        state.drained(content).complete(),
        state.drained(content).collected == content,
        !state.drained(content).stopped,
    decreases state.file_size - state.position(),
{
    match state.next_step() {
        BulkStep::Done => {
            law_unstopped_run_ends_complete(state);
            law_finished_read_is_whole_file(state, content);
        },
        BulkStep::Read { offset, len } => {
            let buffer = content.subrange(offset as int, offset + len);
            assert(buffer.take(len as int) =~= buffer);
            let after = state.after_read(buffer, len as nat);
            assert(bytes_taken(buffer, len as nat, len as nat) =~= buffer);
            law_bulk_read_keeps_agreement(state, content, buffer, len as nat);
            law_read_all_returns_content(after, content);
        },
    }
}

/// The reading of a whole file, chunk by chunk. The caller asks for the next
/// step, performs the read and hands the buffer back, until the step is
/// `Done`; then it finishes the run, which gives the bytes of the file or the
/// failure to read all of them.
pub struct BulkRead {
    path: String,
    file_size: u64,
    policy: ChunkPolicy,
    collected: Vec<u8>,
    stopped: bool,
}

impl View for BulkRead {
    type V = BulkReadView;

    closed spec fn view(&self) -> BulkReadView {
        BulkReadView {
            path: self.path@,
            file_size: self.file_size,
            policy: self.policy,
            collected: self.collected@,
            stopped: self.stopped,
        }
    }
}

impl BulkRead {
    #[verifier::type_invariant]
    spec fn inv(&self) -> bool {
        self.collected@.len() <= self.file_size
    }

    /// Starts the reading of the file at `path`, of `file_size` bytes, under
    /// `policy`.
    pub fn start(path: &str, file_size: u64, policy: ChunkPolicy) -> (read: BulkRead)
        ensures
            read@ == BulkReadView::initial(path@, file_size, policy),
    {
        BulkRead { path: path.to_owned(), file_size, policy, collected: Vec::new(), stopped: false }
    }

    /// The next step of the run.
    pub fn next_step(&self) -> (step: BulkStep)
        ensures
            self@.wf(),
            step == self@.next_step(),
    {
        proof {
            use_type_invariant(self);
        }
        let position = self.collected.len() as u64;
        if self.stopped || position >= self.file_size || self.policy.chunk_size == 0 {
            BulkStep::Done
        } else {
            let left = self.file_size - position;
            let len = if self.policy.chunk_size <= left {
                self.policy.chunk_size
            } else {
                left
            };
            BulkStep::Read { offset: position, len }
        }
    }

    /// Takes in what the read asked for by `next_step` returned: `buffer` is
    /// the buffer that was read into, `bytes_read` the count that the call
    /// reported. A call while the step is `Done` changes nothing.
    pub fn accept(self, buffer: Vec<u8>, bytes_read: usize) -> (next: BulkRead)
        ensures
            next@ == self@.after_read(buffer@, bytes_read as nat),
            next@.wf(),
    {
        proof {
            use_type_invariant(&self);
        }
        match self.next_step() {
            BulkStep::Done => self,
            BulkStep::Read { offset, len } => {
                let mut taken = buffer;
                let filled = if bytes_read <= taken.len() {
                    bytes_read
                } else {
                    taken.len()
                };
                let kept = if filled as u64 <= len {
                    filled
                } else {
                    len as usize
                };
                taken.truncate(kept);
                let BulkRead { path, file_size, policy, collected, stopped } = self;
                let mut collected = collected;
                if kept == 0 {
                    BulkRead { path, file_size, policy, collected, stopped: true }
                } else {
                    collected.append(&mut taken);
                    BulkRead { path, file_size, policy, collected, stopped: false }
                }
            },
        }
    }

    /// The pause to make after a chunk, in milliseconds, if the policy asks
    /// for one.
    pub fn pause_after_chunk(&self) -> (pause: Option<u64>)
        ensures
            pause == if self@.policy.pause_millis > 0 {
                Some(self@.policy.pause_millis)
            } else {
                None
            },
    {
        if self.policy.pause_millis > 0 {
            Some(self.policy.pause_millis)
        } else {
            None
        }
    }

    /// Ends the run: the bytes of the file where all of them were collected,
    /// else a read failure at the offset that the run reached. A run falls
    /// short where a read brought nothing before the end, where the chunks
    /// hold no byte, and where it is finished before its last step.
    pub fn finish(self) -> (outcome: Result<Vec<u8>, FilesystemError>)
        ensures
            match outcome {
                Ok(bytes) => self@.complete() && bytes@ == self@.collected,
                Err(error) => !self@.complete() && is_short_read(
                    error,
                    self@.path,
                    self@.position(),
                ),
            },
    {
        proof {
            use_type_invariant(&self);
        }
        let position = self.collected.len() as u64;
        if position == self.file_size {
            Ok(self.collected)
        } else {
            Err(
                FilesystemError::Read {
                    path: self.path,
                    offset: position,
                    cause: String::from_str("the read stopped before the end of the file"),
                },
            )
        }
    }
}

} // verus!

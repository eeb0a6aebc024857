use shadowcrawler::reader::{
    is_network_share, BulkRead, BulkStep, ChunkPolicy, FilesystemError, RangeRead,
    LOCAL_CHUNK_SIZE, NETWORK_CHUNK_SIZE, NETWORK_PAUSE_MILLIS,
};

/// A file of `size` bytes whose content can be told apart position by position.
fn sample_file(size: usize) -> Vec<u8> {
    (0..size).map(|i| (i % 251) as u8).collect()
}

/// Performs the read of a plan on `content` as a file would: fills a buffer of
/// the planned length from the planned offset.
fn read_range(content: &[u8], offset: u64, size: u64) -> shadowcrawler::reader::StreamChunk {
    let plan = RangeRead::plan(content.len() as u64, offset, size);
    let len = plan.len() as usize;
    let start = (plan.offset() as usize).min(content.len());
    let mut buffer = vec![0u8; len];
    buffer.copy_from_slice(&content[start..start + len]);
    plan.finish(buffer, len)
}

/// Reads `content` to its end under `policy`, each read bringing at most
/// `most` bytes.
fn read_all(content: &[u8], policy: ChunkPolicy, most: usize) -> (Vec<u8>, usize) {
    let mut state = BulkRead::start("film.mp4", content.len() as u64, policy);
    let mut reads = 0;
    loop {
        match state.next_step() {
            BulkStep::Done => break,
            BulkStep::Read { offset, len } => {
                let start = offset as usize;
                let mut buffer = vec![0u8; len as usize];
                let got = (len as usize).min(most);
                buffer[..got].copy_from_slice(&content[start..start + got]);
                state = state.accept(buffer, got);
                reads += 1;
            }
        }
    }
    (state.finish().unwrap(), reads)
}

#[test]
fn range_read_larger_than_file_returns_whole_file() {
    let content = sample_file(500);
    let chunk = read_range(&content, 0, 1024);
    assert_eq!(chunk.data.len(), 500);
    assert_eq!(chunk.data, content);
    assert_eq!(chunk.offset, 0);
    assert_eq!(chunk.total_size, 500);
    assert!(chunk.is_complete);
}

#[test]
fn range_read_plans_the_requested_size_inside_the_file() {
    let plan = RangeRead::plan(500, 100, 200);
    assert_eq!(plan.offset(), 100);
    assert_eq!(plan.total_size(), 500);
    assert_eq!(plan.len(), 200);
}

#[test]
fn range_read_inside_the_file_is_not_complete() {
    let content = sample_file(500);
    let chunk = read_range(&content, 100, 200);
    assert_eq!(chunk.data, content[100..300].to_vec());
    assert_eq!(chunk.offset, 100);
    assert_eq!(chunk.total_size, 500);
    assert!(!chunk.is_complete);
}

#[test]
fn range_read_that_ends_at_the_end_is_complete() {
    let content = sample_file(500);
    let chunk = read_range(&content, 300, 200);
    assert_eq!(chunk.data, content[300..500].to_vec());
    assert!(chunk.is_complete);
}

#[test]
fn range_read_is_capped_at_the_remaining_bytes() {
    let content = sample_file(500);
    let plan = RangeRead::plan(500, 450, 1024);
    assert_eq!(plan.len(), 50);
    let chunk = read_range(&content, 450, 1024);
    assert_eq!(chunk.data, content[450..500].to_vec());
    assert_eq!(chunk.data.len(), 50);
    assert!(chunk.is_complete);
}

#[test]
fn range_read_at_the_end_of_the_file_is_empty_and_complete() {
    let content = sample_file(500);
    let chunk = read_range(&content, 500, 1024);
    assert_eq!(chunk.data, Vec::<u8>::new());
    assert_eq!(chunk.offset, 500);
    assert_eq!(chunk.total_size, 500);
    assert!(chunk.is_complete);
}

#[test]
fn range_read_past_the_end_of_the_file_is_empty_and_complete() {
    let plan = RangeRead::plan(500, 900, 1024);
    assert_eq!(plan.len(), 0);
    let chunk = plan.finish(Vec::new(), 0);
    assert_eq!(chunk.data, Vec::<u8>::new());
    assert_eq!(chunk.offset, 900);
    assert!(chunk.is_complete);
}

#[test]
fn range_read_of_an_empty_file_is_empty_and_complete() {
    let chunk = read_range(&[], 0, 1024);
    assert_eq!(chunk.data.len(), 0);
    assert_eq!(chunk.total_size, 0);
    assert!(chunk.is_complete);
}

#[test]
fn range_read_of_size_zero_is_empty() {
    let content = sample_file(500);
    let chunk = read_range(&content, 10, 0);
    assert_eq!(chunk.data.len(), 0);
    assert!(!chunk.is_complete);
}

#[test]
fn range_read_keeps_only_the_bytes_that_were_read() {
    let plan = RangeRead::plan(500, 0, 100);
    let chunk = plan.finish(vec![9u8; 100], 40);
    assert_eq!(chunk.data, vec![9u8; 40]);
    assert!(!chunk.is_complete);
}

#[test]
fn range_read_never_keeps_more_than_the_buffer_or_the_plan() {
    let chunk = RangeRead::plan(500, 0, 100).finish(vec![9u8; 30], 70);
    assert_eq!(chunk.data.len(), 30);
    let chunk = RangeRead::plan(500, 480, 100).finish(vec![9u8; 100], 100);
    assert_eq!(chunk.data.len(), 20);
    assert!(chunk.is_complete);
}

#[test]
fn range_read_holds_its_bounds_near_the_largest_offsets() {
    let plan = RangeRead::plan(u64::MAX, u64::MAX - 3, u64::MAX);
    assert_eq!(plan.len(), 3);
    let chunk = plan.finish(vec![1, 2, 3], 3);
    assert_eq!(chunk.data, vec![1, 2, 3]);
    assert!(chunk.is_complete);
}

#[test]
fn chunk_bounds_hold_over_a_grid_of_range_reads() {
    let content = sample_file(64);
    for offset in 0..=64u64 {
        for size in [0u64, 1, 7, 63, 64, 65, 1000] {
            let chunk = read_range(&content, offset, size);
            let end = chunk.offset + chunk.data.len() as u64;
            assert!(end <= chunk.total_size);
            assert!(chunk.data.len() as u64 <= size);
            assert_eq!(chunk.is_complete, end == chunk.total_size);
        }
    }
}

#[test]
fn network_share_is_told_by_two_leading_backslashes() {
    assert!(is_network_share("\\\\server\\share\\film.mp4"));
    assert!(is_network_share("\\\\"));
    assert!(!is_network_share("\\server\\share"));
    assert!(!is_network_share("C:\\films\\a.mp4"));
    assert!(!is_network_share("/mnt/films/a.mp4"));
    assert!(!is_network_share("//server/share"));
    assert!(!is_network_share(""));
    assert!(!is_network_share("\\"));
}

#[test]
fn policy_for_a_network_share_uses_small_chunks_and_a_pause() {
    let policy = ChunkPolicy::for_path("\\\\server\\share\\film.mp4");
    assert_eq!(policy.chunk_size, 64 * 1024);
    assert_eq!(policy.pause_millis, 10);
    assert_eq!(policy.chunk_size, NETWORK_CHUNK_SIZE);
    assert_eq!(policy.pause_millis, NETWORK_PAUSE_MILLIS);
}

#[test]
fn policy_for_a_local_path_uses_large_chunks_and_no_pause() {
    let policy = ChunkPolicy::for_path("/home/me/film.mp4");
    assert_eq!(policy.chunk_size, 1024 * 1024);
    assert_eq!(policy.pause_millis, 0);
    assert_eq!(policy.chunk_size, LOCAL_CHUNK_SIZE);
}

#[test]
fn bulk_read_pauses_only_under_a_policy_with_a_pause() {
    let share = "\\\\nas\\a.mp4";
    let network = BulkRead::start(share, 10, ChunkPolicy::for_path(share));
    assert_eq!(network.pause_after_chunk(), Some(10));
    let local = BulkRead::start("a.mp4", 10, ChunkPolicy::for_path("a.mp4"));
    assert_eq!(local.pause_after_chunk(), None);
}

#[test]
fn bulk_read_returns_the_whole_file_under_either_policy() {
    let content = sample_file(3 * 1024 * 1024 + 17);
    let (local, local_reads) =
        read_all(&content, ChunkPolicy::for_path("/films/a.mp4"), usize::MAX);
    assert_eq!(local.len(), content.len());
    assert!(local == content);
    assert_eq!(local_reads, 4);
    let (network, network_reads) =
        read_all(&content, ChunkPolicy::for_path("\\\\nas\\films\\a.mp4"), usize::MAX);
    assert_eq!(network.len(), content.len());
    assert!(network == content);
    assert_eq!(network_reads, 49);
}

#[test]
fn bulk_read_returns_the_whole_file_for_any_chunk_size() {
    let content = sample_file(1000);
    for chunk_size in [1u64, 2, 3, 7, 999, 1000, 1001, 4096] {
        let policy = ChunkPolicy { chunk_size, pause_millis: 0 };
        let (bytes, _) = read_all(&content, policy, usize::MAX);
        assert_eq!(bytes, content);
    }
}

#[test]
fn bulk_read_returns_the_whole_file_when_reads_come_back_short() {
    let content = sample_file(1000);
    let policy = ChunkPolicy { chunk_size: 64, pause_millis: 0 };
    let (bytes, reads) = read_all(&content, policy, 10);
    assert_eq!(bytes, content);
    assert_eq!(reads, 100);
}

#[test]
fn bulk_read_asks_for_one_chunk_at_a_time() {
    let policy = ChunkPolicy { chunk_size: 4, pause_millis: 0 };
    let state = BulkRead::start("a.mp4", 10, policy);
    assert_eq!(state.next_step(), BulkStep::Read { offset: 0, len: 4 });
    let state = state.accept(vec![1, 2, 3, 4], 4);
    assert_eq!(state.next_step(), BulkStep::Read { offset: 4, len: 4 });
    let state = state.accept(vec![5, 6, 7, 8], 4);
    assert_eq!(state.next_step(), BulkStep::Read { offset: 8, len: 2 });
    let state = state.accept(vec![9, 10], 2);
    assert_eq!(state.next_step(), BulkStep::Done);
    assert_eq!(state.finish().unwrap(), vec![1, 2, 3, 4, 5, 6, 7, 8, 9, 10]);
}

#[test]
fn bulk_read_of_an_empty_file_is_done_at_once() {
    let state = BulkRead::start("a.mp4", 0, ChunkPolicy::for_path("a.mp4"));
    assert_eq!(state.next_step(), BulkStep::Done);
    assert_eq!(state.finish().unwrap(), Vec::<u8>::new());
}

fn short_read_of(outcome: Result<Vec<u8>, FilesystemError>) -> (String, u64, String) {
    match outcome {
        Err(FilesystemError::Read { path, offset, cause }) => (path, offset, cause),
        Err(other) => panic!("another failure than a read failure: {:?}", other),
        Ok(bytes) => panic!("{} bytes were handed out where a failure was due", bytes.len()),
    }
}

#[test]
fn bulk_read_that_meets_an_empty_read_before_the_end_fails() {
    let policy = ChunkPolicy { chunk_size: 4, pause_millis: 0 };
    let state = BulkRead::start("/films/a.mp4", 10, policy);
    let state = state.accept(vec![1, 2, 3, 4], 4);
    let state = state.accept(vec![0, 0, 0, 0], 0);
    assert_eq!(state.next_step(), BulkStep::Done);
    let (path, offset, cause) = short_read_of(state.finish());
    assert_eq!(path, "/films/a.mp4");
    assert_eq!(offset, 4);
    assert_eq!(cause, "the read stopped before the end of the file");
}

#[test]
fn bulk_read_failure_is_described_with_the_offset_reached() {
    let policy = ChunkPolicy { chunk_size: 4, pause_millis: 0 };
    let state = BulkRead::start("a.mp4", 10, policy).accept(vec![1, 2, 3, 4], 4);
    let error = state.accept(Vec::new(), 0).finish().unwrap_err();
    assert_eq!(
        error.message(),
        "Failed to read chunk at offset 4: the read stopped before the end of the file"
    );
    assert_eq!(error.path(), "a.mp4");
}

#[test]
fn bulk_read_that_meets_an_empty_first_read_fails_at_the_start() {
    let policy = ChunkPolicy { chunk_size: 4, pause_millis: 0 };
    let state = BulkRead::start("a.mp4", 10, policy).accept(vec![0; 4], 0);
    let (_, offset, _) = short_read_of(state.finish());
    assert_eq!(offset, 0);
}

#[test]
fn bulk_read_finished_before_its_last_step_fails() {
    let policy = ChunkPolicy { chunk_size: 4, pause_millis: 0 };
    let state = BulkRead::start("a.mp4", 10, policy).accept(vec![1, 2, 3, 4], 4);
    assert_eq!(state.next_step(), BulkStep::Read { offset: 4, len: 4 });
    let (_, offset, _) = short_read_of(state.finish());
    assert_eq!(offset, 4);
}

#[test]
fn bulk_read_with_chunks_of_no_byte_asks_for_nothing_and_fails() {
    let policy = ChunkPolicy { chunk_size: 0, pause_millis: 0 };
    let state = BulkRead::start("a.mp4", 1000, policy);
    assert_eq!(state.next_step(), BulkStep::Done);
    let (path, offset, _) = short_read_of(state.finish());
    assert_eq!(path, "a.mp4");
    assert_eq!(offset, 0);
}

#[test]
fn bulk_read_of_an_empty_file_succeeds_whatever_the_chunk_size() {
    let policy = ChunkPolicy { chunk_size: 0, pause_millis: 0 };
    let state = BulkRead::start("a.mp4", 0, policy);
    assert_eq!(state.next_step(), BulkStep::Done);
    assert_eq!(state.finish().unwrap(), Vec::<u8>::new());
}

#[test]
fn bulk_read_ignores_what_comes_after_the_end() {
    let policy = ChunkPolicy { chunk_size: 4, pause_millis: 0 };
    let state = BulkRead::start("a.mp4", 3, policy);
    let state = state.accept(vec![1, 2, 3, 4, 5], 5);
    assert_eq!(state.next_step(), BulkStep::Done);
    let state = state.accept(vec![6, 7], 2);
    assert_eq!(state.finish().unwrap(), vec![1, 2, 3]);
}

#[test]
fn open_failure_is_described_with_its_cause() {
    let error = FilesystemError::Open {
        path: String::from("/films/a.mp4"),
        cause: String::from("No such file or directory (os error 2)"),
    };
    assert_eq!(error.message(), "Failed to open file: No such file or directory (os error 2)");
    assert_eq!(error.path(), "/films/a.mp4");
}

#[test]
fn stat_failure_is_described_with_its_cause() {
    let error = FilesystemError::Stat {
        path: String::from("/films/a.mp4"),
        cause: String::from("Permission denied"),
    };
    assert_eq!(error.message(), "Failed to get metadata: Permission denied");
    assert_eq!(error.path(), "/films/a.mp4");
}

#[test]
fn seek_failure_is_described_with_its_offset() {
    let error = FilesystemError::Seek {
        path: String::from("/films/a.mp4"),
        offset: 1048576,
        cause: String::from("Invalid argument"),
    };
    assert_eq!(error.message(), "Failed to seek to offset 1048576: Invalid argument");
    assert_eq!(error.path(), "/films/a.mp4");
}

#[test]
fn read_failure_is_described_with_its_offset() {
    let error = FilesystemError::Read {
        path: String::from("\\\\nas\\a.mp4"),
        offset: 0,
        cause: String::from("Input/output error"),
    };
    assert_eq!(error.message(), "Failed to read chunk at offset 0: Input/output error");
    assert_eq!(error.path(), "\\\\nas\\a.mp4");
}

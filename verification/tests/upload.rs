use stream_gears::chunk::ChunkScheduler;
use stream_gears::chunk::VideoFile;
use stream_gears::chunk::pre_upload_check;
use stream_gears::chunk::reassemble;
use stream_gears::chunk::split_into_chunks;
use stream_gears::errors::UploadError;

#[test]
fn zero_byte_file_rejected_before_any_network_call() {
    let file = VideoFile { file_name: String::from("empty.flv"), total_size: 0 };
    assert_eq!(pre_upload_check(&file), Err(UploadError::EmptyFile));
}

#[test]
fn nonempty_file_accepted() {
    let file = VideoFile { file_name: String::from("a.mp4"), total_size: 1 };
    assert_eq!(pre_upload_check(&file), Ok(()));
}

#[test]
fn split_reassemble_roundtrip() {
    let data: Vec<u8> = (0..=255u8).cycle().take(10_000).collect();
    for chunk_size in [1usize, 7, 4096, 10_000, 20_000] {
        let chunks = split_into_chunks(&data, chunk_size);
        assert_eq!(reassemble(&chunks), data, "chunk size {}", chunk_size);
    }
}

#[test]
fn split_chunk_sizes_full_except_last() {
    let data: Vec<u8> = vec![9u8; 10];
    let chunks = split_into_chunks(&data, 4);
    assert_eq!(chunks.len(), 3);
    assert_eq!(chunks[0].len(), 4);
    assert_eq!(chunks[1].len(), 4);
    assert_eq!(chunks[2].len(), 2);
}

#[test]
fn split_empty_stream_yields_no_chunks() {
    let data: Vec<u8> = Vec::new();
    assert_eq!(split_into_chunks(&data, 8).len(), 0);
}

#[test]
fn scheduler_never_exceeds_limit() {
    let total = 17usize;
    let limit = 3usize;
    let mut sched = ChunkScheduler::new(total, limit);
    let mut max_seen = 0usize;
    let mut done = 0usize;
    // Start as many as allowed, then finish one, until all chunks are done.
    while !sched.all_done() {
        while sched.can_start() {
            let _idx = sched.start_chunk();
            max_seen = max_seen.max(sched.in_flight_count());
        }
        sched.finish_chunk();
        done += 1;
    }
    assert!(max_seen <= limit);
    assert_eq!(max_seen, limit, "the scheduler should reach, but never pass, the cap");
    assert_eq!(done, total);
}

#[test]
fn scheduler_limit_one_is_sequential() {
    let mut sched = ChunkScheduler::new(5, 1);
    let mut started = 0usize;
    while !sched.all_done() {
        assert!(sched.can_start());
        let idx = sched.start_chunk();
        assert_eq!(idx, started);
        started += 1;
        assert!(!sched.can_start(), "a second chunk in flight would break limit 1");
        assert_eq!(sched.in_flight_count(), 1);
        sched.finish_chunk();
    }
    assert_eq!(started, 5);
}

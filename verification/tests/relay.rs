use session_launch::memory::{MemorySink, MemorySource};
use session_launch::relay::{relay_bounded, ByteSink, ByteSource, RelayEnd, StreamFault, MAX_READS};
use session_launch::run_stream_pipe;

#[test]
fn relay_delivers_hello_unchanged() {
    let mut source = MemorySource::new(b"hello\n".to_vec(), 4);
    let mut sink = MemorySink::new(64);
    let end = run_stream_pipe(&mut source, &mut sink);
    assert_eq!(end, RelayEnd::Drained);
    assert_eq!(sink.data, b"hello\n".to_vec());
    assert_eq!(source.pos, 6);
}

#[test]
fn relay_survives_partial_reads_and_writes() {
    let data: Vec<u8> = (0..=255u8).collect();
    for chunk in 0..9usize {
        for per_write in 0..9usize {
            let mut source = MemorySource::new(data.clone(), chunk);
            let mut sink = MemorySink::new(per_write);
            assert_eq!(run_stream_pipe(&mut source, &mut sink), RelayEnd::Drained);
            assert_eq!(sink.data, data);
        }
    }
}

#[test]
fn relay_of_empty_source_delivers_nothing() {
    let mut source = MemorySource::new(Vec::new(), 8);
    let mut sink = MemorySink::new(8);
    assert_eq!(run_stream_pipe(&mut source, &mut sink), RelayEnd::Drained);
    assert_eq!(sink.data, Vec::<u8>::new());
}

#[test]
fn relay_appends_after_what_the_sink_held() {
    let mut source = MemorySource::new(b"world".to_vec(), 2);
    let mut sink = MemorySink::new(3);
    sink.data = b"hello ".to_vec();
    assert_eq!(run_stream_pipe(&mut source, &mut sink), RelayEnd::Drained);
    assert_eq!(sink.data, b"hello world".to_vec());
}

#[test]
fn relay_stops_when_the_sink_is_full() {
    let mut source = MemorySource::new(b"abcdefgh".to_vec(), 5);
    let mut sink = MemorySink::bounded(2, 3);
    assert_eq!(run_stream_pipe(&mut source, &mut sink), RelayEnd::SinkFailed);
    assert_eq!(sink.data, b"abc".to_vec());
}

#[test]
fn relay_into_a_sink_that_fits_exactly_still_drains() {
    let mut source = MemorySource::new(b"abc".to_vec(), 5);
    let mut sink = MemorySink::bounded(2, 3);
    assert_eq!(run_stream_pipe(&mut source, &mut sink), RelayEnd::Drained);
    assert_eq!(sink.data, b"abc".to_vec());
}

#[test]
fn relay_stops_when_the_source_fails() {
    let mut source = MemorySource::failing_at(b"abcdefgh".to_vec(), 3, 6);
    let mut sink = MemorySink::new(2);
    assert_eq!(run_stream_pipe(&mut source, &mut sink), RelayEnd::SourceFailed);
    assert_eq!(sink.data, b"abcdef".to_vec());
    assert_eq!(source.pos, 6);
}

#[test]
fn source_hands_out_chunks_of_the_chosen_size() {
    let mut source = MemorySource::new(b"abcdefg".to_vec(), 3);
    assert_eq!(source.next_chunk(), Ok(b"abc".to_vec()));
    assert_eq!(source.next_chunk(), Ok(b"def".to_vec()));
    assert_eq!(source.next_chunk(), Ok(b"g".to_vec()));
    assert_eq!(source.next_chunk(), Ok(Vec::new()));
    assert_eq!(source.next_chunk(), Ok(Vec::new()));
}

#[test]
fn source_with_chunk_zero_gives_single_bytes() {
    let mut source = MemorySource::new(b"xy".to_vec(), 0);
    assert_eq!(source.next_chunk(), Ok(b"x".to_vec()));
    assert_eq!(source.next_chunk(), Ok(b"y".to_vec()));
    assert_eq!(source.next_chunk(), Ok(Vec::new()));
}

#[test]
fn failing_source_fails_from_its_limit_on() {
    let mut source = MemorySource::failing_at(b"abcd".to_vec(), 2, 2);
    assert_eq!(source.next_chunk(), Ok(b"ab".to_vec()));
    assert_eq!(source.next_chunk(), Err(StreamFault {}));
    assert_eq!(source.pos, 2);
}

#[test]
fn sink_takes_a_part_and_says_how_much() {
    let mut sink = MemorySink::new(2);
    let data = b"abcde".to_vec();
    assert_eq!(sink.write(&data, 1), Ok(2));
    assert_eq!(sink.data, b"bc".to_vec());
    assert_eq!(sink.write(&data, 4), Ok(1));
    assert_eq!(sink.data, b"bce".to_vec());
}

#[test]
fn full_sink_refuses_and_keeps_what_it_has() {
    let mut sink = MemorySink::bounded(8, 2);
    let data = b"abcde".to_vec();
    assert_eq!(sink.write(&data, 0), Ok(2));
    assert_eq!(sink.write(&data, 2), Err(StreamFault {}));
    assert_eq!(sink.data, b"ab".to_vec());
}

#[test]
fn relay_gives_up_at_its_bound_of_reads() {
    let mut source = MemorySource::new(b"abcdefgh".to_vec(), 3);
    let mut sink = MemorySink::new(8);
    assert_eq!(relay_bounded(&mut source, &mut sink, 2), RelayEnd::Exhausted);
    assert_eq!(sink.data, b"abcdef".to_vec());
    assert_eq!(source.pos, 6);
}

#[test]
fn relay_needs_one_read_more_than_chunks() {
    let mut source = MemorySource::new(b"abcdef".to_vec(), 3);
    let mut sink = MemorySink::new(8);
    assert_eq!(relay_bounded(&mut source, &mut sink, 2), RelayEnd::Exhausted);
    assert_eq!(relay_bounded(&mut source, &mut sink, 1), RelayEnd::Drained);
    assert_eq!(sink.data, b"abcdef".to_vec());
}

#[test]
fn relay_without_reads_moves_nothing() {
    let mut source = MemorySource::new(b"abc".to_vec(), 3);
    let mut sink = MemorySink::new(8);
    assert_eq!(relay_bounded(&mut source, &mut sink, 0), RelayEnd::Exhausted);
    assert_eq!(sink.data, Vec::<u8>::new());
    assert_eq!(source.pos, 0);
    assert_eq!(MAX_READS, u64::MAX);
}

struct Stubborn {
    answer: usize,
    calls: usize,
}

impl ByteSink for Stubborn {
    fn write(&mut self, _data: &Vec<u8>, _from: usize) -> Result<usize, StreamFault> {
        self.calls += 1;
        Ok(self.answer)
    }
}

#[test]
fn sink_that_takes_nothing_ends_the_relay() {
    let mut source = MemorySource::new(b"abc".to_vec(), 3);
    let mut sink = Stubborn { answer: 0, calls: 0 };
    assert_eq!(run_stream_pipe(&mut source, &mut sink), RelayEnd::SinkFailed);
    assert_eq!(sink.calls, 1);
}

#[test]
fn sink_that_claims_too_much_ends_the_relay() {
    let mut source = MemorySource::new(b"abc".to_vec(), 3);
    let mut sink = Stubborn { answer: 4, calls: 0 };
    assert_eq!(run_stream_pipe(&mut source, &mut sink), RelayEnd::SinkFailed);
    assert_eq!(sink.calls, 1);
}

#[test]
fn last_chunk_holds_what_is_left() {
    let mut source = MemorySource::new(b"abcde".to_vec(), 4);
    assert_eq!(source.next_chunk(), Ok(b"abcd".to_vec()));
    assert_eq!(source.pos, 4);
    assert_eq!(source.next_chunk(), Ok(b"e".to_vec()));
    assert_eq!(source.pos, 5);
}

#[test]
fn bounded_sink_takes_no_more_than_it_has_room_for() {
    let mut sink = MemorySink::bounded(4, 6);
    let data = b"abcdefgh".to_vec();
    assert_eq!(sink.write(&data, 0), Ok(4));
    assert_eq!(sink.write(&data, 4), Ok(2));
    assert_eq!(sink.data, b"abcdef".to_vec());
    assert_eq!(sink.write(&data, 6), Err(StreamFault {}));
}

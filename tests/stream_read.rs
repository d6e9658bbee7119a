use futures::{Async, Stream};
use lz_stream_io::{IoFailure, StreamPoll, StreamRead};
use std::io::ErrorKind;

#[derive(Clone, Copy)]
enum Step {
    Chunk(&'static [u8]),
    Gap,
    Fail(u8),
    End,
}

/// A producer that plays a script and panics if polled after its end.
struct Script {
    steps: Vec<Step>,
    next: usize,
    polls: usize,
    ended: bool,
}

impl Script {
    fn new(steps: Vec<Step>) -> Script {
        Script { steps, next: 0, polls: 0, ended: false }
    }

    fn poll(&mut self) -> StreamPoll<u8> {
        assert!(!self.ended, "polled after reporting exhaustion");
        self.polls += 1;
        let step = self.steps.get(self.next).copied().unwrap_or(Step::End);
        self.next += 1;
        match step {
            Step::Chunk(c) => StreamPoll::Item(c.to_vec()),
            Step::Gap => StreamPoll::NotReady,
            Step::Fail(e) => StreamPoll::Failed(e),
            Step::End => {
                self.ended = true;
                StreamPoll::Exhausted
            }
        }
    }
}

fn read_once(read: &mut StreamRead<Script>, dest: &mut [u8]) -> Result<usize, IoFailure<u8>> {
    let polled = if read.needs_poll() { Some(read.get_mut().poll()) } else { None };
    read.read(polled, dest)
}

/// Reads with destinations of `chunk` bytes until a read gives zero bytes,
/// retrying on `WouldBlock`.
fn read_to_end(read: &mut StreamRead<Script>, chunk: usize) -> Vec<u8> {
    let mut out = Vec::new();
    let mut dest = vec![0u8; chunk];
    loop {
        match read_once(read, &mut dest) {
            Ok(0) => return out,
            Ok(n) => out.extend_from_slice(&dest[..n]),
            Err(IoFailure::WouldBlock) => continue,
            Err(IoFailure::Transport(e)) => panic!("read failed: {}", e),
        }
    }
}

fn hello_world_script() -> Script {
    Script::new(vec![
        Step::Chunk(b"he"),
        Step::Gap,
        Step::Chunk(b"llo"),
        Step::Gap,
        Step::Chunk(b" wor"),
        Step::Gap,
        Step::Chunk(b"ld"),
        Step::End,
    ])
}

#[test]
fn async_read_works() {
    let items: Vec<&'static [u8]> = vec![&b"he"[..], &b"llo"[..], &b" wor"[..], &b"ld"[..]];
    let stream = futures::stream::iter_ok::<_, ErrorKind>(items);
    let mut read = StreamRead::new(stream);

    let mut output = Vec::new();
    let mut dest = [0u8; 20];
    loop {
        let polled = if read.needs_poll() {
            Some(match read.get_mut().poll() {
                Ok(Async::Ready(Some(item))) => StreamPoll::Item(item.to_vec()),
                Ok(Async::Ready(None)) => StreamPoll::Exhausted,
                Ok(Async::NotReady) => StreamPoll::NotReady,
                Err(e) => StreamPoll::Failed(e),
            })
        } else {
            None
        };
        match read.read(polled, &mut dest) {
            Ok(0) => break,
            Ok(n) => output.extend_from_slice(&dest[..n]),
            Err(IoFailure::WouldBlock) => continue,
            Err(IoFailure::Transport(e)) => panic!("read failed: {:?}", e),
        }
    }

    assert_eq!(output, b"hello world");
}

#[test]
fn round_trip_with_gaps_reads_hello_world() {
    let mut read = StreamRead::new(hello_world_script());
    assert_eq!(read_to_end(&mut read, 20), b"hello world");
}

#[test]
fn chunked_reads_keep_order() {
    for chunk in 1..13 {
        let mut read = StreamRead::new(hello_world_script());
        assert_eq!(read_to_end(&mut read, chunk), b"hello world", "chunk {}", chunk);
    }
}

#[test]
fn exhausted_producer_is_never_polled_again() {
    let mut read = StreamRead::new(Script::new(vec![Step::Chunk(b"ab"), Step::End]));
    assert_eq!(read_to_end(&mut read, 4), b"ab");
    let polls = read.get_mut().polls;
    let mut dest = [0u8; 4];
    for _ in 0..5 {
        assert!(!read.needs_poll());
        assert_eq!(read_once(&mut read, &mut dest), Ok(0));
    }
    assert_eq!(read.get_mut().polls, polls);
}

#[test]
fn small_reads_deliver_over_fetched_bytes_without_polling() {
    let mut read = StreamRead::new(Script::new(vec![Step::Chunk(b"hello")]));
    let mut dest = [0u8; 2];
    assert_eq!(read_once(&mut read, &mut dest), Ok(2));
    assert_eq!(&dest, b"he");
    assert_eq!(read_once(&mut read, &mut dest), Ok(2));
    assert_eq!(&dest, b"ll");
    assert_eq!(read_once(&mut read, &mut dest), Ok(1));
    assert_eq!(&dest, b"ol");
    assert_eq!(read.get_mut().polls, 1);
}

#[test]
fn not_ready_gives_would_block_and_keeps_state() {
    let mut read = StreamRead::new(Script::new(vec![Step::Gap, Step::Chunk(b"x")]));
    let mut dest = [9u8; 3];
    assert_eq!(read_once(&mut read, &mut dest), Err(IoFailure::WouldBlock));
    assert_eq!(dest, [9u8; 3]);
    assert!(read.needs_poll());
    assert_eq!(read_once(&mut read, &mut dest), Ok(1));
    assert_eq!(dest, [b'x', 9, 9]);
}

#[test]
fn producer_failure_is_passed_through() {
    let mut read = StreamRead::new(Script::new(vec![Step::Fail(3), Step::Chunk(b"z")]));
    let mut dest = [0u8; 3];
    assert_eq!(read_once(&mut read, &mut dest), Err(IoFailure::Transport(3)));
    assert_eq!(read_to_end(&mut read, 3), b"z");
}

#[test]
fn fill_buf_and_consume_work_through_the_buffer() {
    let mut read = StreamRead::new(Script::new(vec![Step::Chunk(b"abcd"), Step::End]));
    let polled = Some(read.get_mut().poll());
    assert_eq!(read.fill_buf(polled), Ok(&b"abcd"[..]));
    assert_eq!(read.fill_buf::<u8>(None), Ok(&b"abcd"[..]));
    read.consume(3);
    assert_eq!(read.buffer(), b"d");
    read.consume(1);
    assert!(read.needs_poll());
    let polled = Some(read.get_mut().poll());
    assert_eq!(read.fill(polled), Ok(()));
    assert_eq!(read.buffer(), b"");
    assert!(!read.needs_poll());
}

#[test]
fn read_into_empty_destination_copies_nothing() {
    let mut read = StreamRead::new(Script::new(vec![Step::Chunk(b"ab")]));
    let mut dest: [u8; 0] = [];
    assert_eq!(read_once(&mut read, &mut dest), Ok(0));
    assert_eq!(read.buffer(), b"ab");
}

#[test]
fn into_inner_returns_the_producer_and_drops_buffered_bytes() {
    let mut read = StreamRead::new(Script::new(vec![Step::Chunk(b"abc"), Step::Chunk(b"de")]));
    let mut dest = [0u8; 1];
    assert_eq!(read_once(&mut read, &mut dest), Ok(1));
    let mut script = read.into_inner();
    assert_eq!(script.polls, 1);
    assert!(matches!(script.poll(), StreamPoll::Item(ref v) if v == b"de"));
}

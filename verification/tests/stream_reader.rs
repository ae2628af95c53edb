use bollard::errors::ReadError;
use bollard::read::{Polled, StreamReader};
use std::collections::VecDeque;

/// One read against an upstream that answers with `upstream`'s items in
/// order and is suspended when they are used up. Returns the read's result
/// and the number of polls it made.
fn read(
    reader: &mut StreamReader,
    upstream: &mut VecDeque<Polled>,
    buf: &mut [u8],
) -> (Result<usize, ReadError>, usize) {
    let mut polls = 0;
    loop {
        if let Some(n) = reader.read(buf) {
            return (Ok(n), polls);
        }
        assert!(reader.is_idle());
        polls += 1;
        let polled = upstream.pop_front().unwrap_or(Polled::NotReady);
        if let Some(result) = reader.supply(polled) {
            return (result, polls);
        }
    }
}

fn chunks(items: &[&[u8]]) -> VecDeque<Polled> {
    let mut upstream: VecDeque<Polled> = items.iter().map(|c| Polled::Chunk(c.to_vec())).collect();
    upstream.push_back(Polled::End);
    upstream
}

#[test]
fn one_read_returns_one_chunk() {
    let mut upstream = chunks(&[b"ab", b"cde"]);
    let mut reader = StreamReader::new();
    let mut buf = [0u8; 10];
    assert_eq!(read(&mut reader, &mut upstream, &mut buf), (Ok(2), 1));
    assert_eq!(&buf[..2], b"ab");
    assert_eq!(&buf[2..], &[0u8; 8]);
    assert_eq!(read(&mut reader, &mut upstream, &mut buf), (Ok(3), 1));
    assert_eq!(&buf[..3], b"cde");
    assert_eq!(read(&mut reader, &mut upstream, &mut buf), (Ok(0), 1));
    assert!(reader.is_ended());
    assert!(!reader.is_idle());
    assert_eq!(&buf[..3], b"cde");
}

#[test]
fn end_of_stream_is_final() {
    let mut upstream: VecDeque<Polled> = VecDeque::new();
    upstream.push_back(Polled::Chunk(b"ab".to_vec()));
    upstream.push_back(Polled::End);
    upstream.push_back(Polled::Chunk(b"late".to_vec()));
    let mut reader = StreamReader::new();
    let mut buf = [0u8; 4];
    assert_eq!(read(&mut reader, &mut upstream, &mut buf), (Ok(2), 1));
    assert_eq!(read(&mut reader, &mut upstream, &mut buf), (Ok(0), 1));
    assert!(reader.is_ended());
    for _ in 0..3 {
        assert_eq!(read(&mut reader, &mut upstream, &mut buf), (Ok(0), 0));
        assert!(reader.is_ended());
    }
    assert_eq!(&buf, b"ab\0\0");
    assert_eq!(upstream.len(), 1);
    assert_eq!(reader.read(&mut buf), Some(0));
    let mut none = [0u8; 0];
    assert_eq!(reader.read(&mut none), Some(0));
}

#[test]
fn empty_stream_ends_at_once() {
    let mut upstream: VecDeque<Polled> = VecDeque::new();
    upstream.push_back(Polled::End);
    let mut reader = StreamReader::new();
    assert!(!reader.is_ended());
    let mut buf = [5u8; 2];
    assert_eq!(read(&mut reader, &mut upstream, &mut buf), (Ok(0), 1));
    assert_eq!(read(&mut reader, &mut upstream, &mut buf), (Ok(0), 0));
    assert_eq!(buf, [5u8; 2]);
}

#[test]
fn suspended_upstream_would_block_and_can_be_retried() {
    let mut upstream: VecDeque<Polled> = VecDeque::new();
    upstream.push_back(Polled::NotReady);
    upstream.push_back(Polled::NotReady);
    upstream.push_back(Polled::Chunk(b"late".to_vec()));
    upstream.push_back(Polled::End);
    let mut reader = StreamReader::new();
    let mut buf = [7u8; 4];
    assert_eq!(
        read(&mut reader, &mut upstream, &mut buf),
        (Err(ReadError::WouldBlock), 1)
    );
    assert!(reader.is_idle());
    assert_eq!(buf, [7u8; 4]);
    assert_eq!(
        read(&mut reader, &mut upstream, &mut buf),
        (Err(ReadError::WouldBlock), 1)
    );
    assert!(reader.is_idle());
    assert_eq!(buf, [7u8; 4]);
    assert_eq!(read(&mut reader, &mut upstream, &mut buf), (Ok(4), 1));
    assert_eq!(&buf, b"late");
    assert_eq!(read(&mut reader, &mut upstream, &mut buf), (Ok(0), 1));
}

#[test]
fn small_buffer_takes_a_chunk_in_pieces() {
    let mut upstream = chunks(&[b"abcde", b"f"]);
    let mut reader = StreamReader::new();
    let mut buf = [0u8; 2];
    assert_eq!(read(&mut reader, &mut upstream, &mut buf), (Ok(2), 1));
    assert_eq!(&buf, b"ab");
    assert!(!reader.is_idle());
    assert_eq!(read(&mut reader, &mut upstream, &mut buf), (Ok(2), 0));
    assert_eq!(&buf, b"cd");
    assert_eq!(read(&mut reader, &mut upstream, &mut buf), (Ok(1), 0));
    assert_eq!(&buf, b"ed");
    assert!(reader.is_idle());
    assert_eq!(read(&mut reader, &mut upstream, &mut buf), (Ok(1), 1));
    assert_eq!(&buf, b"fd");
    assert_eq!(read(&mut reader, &mut upstream, &mut buf), (Ok(0), 1));
}

#[test]
fn buffer_of_the_chunk_length_uses_the_chunk_up() {
    let mut upstream = chunks(&[b"abc"]);
    let mut reader = StreamReader::new();
    let mut buf = [0u8; 3];
    assert_eq!(read(&mut reader, &mut upstream, &mut buf), (Ok(3), 1));
    assert_eq!(&buf, b"abc");
    assert!(reader.is_idle());
}

#[test]
fn upstream_failure_is_reported_with_its_description() {
    let mut upstream: VecDeque<Polled> = VecDeque::new();
    upstream.push_back(Polled::Chunk(b"x".to_vec()));
    upstream.push_back(Polled::Failed("connection reset".to_string()));
    let mut reader = StreamReader::new();
    let mut buf = [0u8; 8];
    assert_eq!(read(&mut reader, &mut upstream, &mut buf), (Ok(1), 1));
    assert_eq!(
        read(&mut reader, &mut upstream, &mut buf),
        (
            Err(ReadError::UpstreamFailure {
                description: "connection reset".to_string()
            }),
            1
        )
    );
    assert!(reader.is_idle());
    assert_eq!(&buf[..1], b"x");
}

#[test]
fn empty_chunk_reads_as_zero_bytes() {
    let mut upstream = chunks(&[b"", b"z"]);
    let mut reader = StreamReader::new();
    let mut buf = [0u8; 4];
    assert_eq!(read(&mut reader, &mut upstream, &mut buf), (Ok(0), 1));
    assert!(reader.is_idle());
    assert_eq!(read(&mut reader, &mut upstream, &mut buf), (Ok(1), 1));
    assert_eq!(&buf[..1], b"z");
}

#[test]
fn empty_buffer_leaves_the_chunk_held() {
    let mut upstream = chunks(&[b"abc"]);
    let mut reader = StreamReader::new();
    let mut none = [0u8; 0];
    assert_eq!(read(&mut reader, &mut upstream, &mut none), (Ok(0), 1));
    assert!(!reader.is_idle());
    let mut buf = [0u8; 4];
    assert_eq!(read(&mut reader, &mut upstream, &mut buf), (Ok(3), 0));
    assert_eq!(&buf[..3], b"abc");
}

#[test]
fn idle_reader_asks_for_a_poll_and_changes_nothing() {
    let mut reader = StreamReader::new();
    assert!(reader.is_idle());
    let mut buf = [9u8; 3];
    assert_eq!(reader.read(&mut buf), None);
    assert_eq!(buf, [9u8; 3]);
    assert!(reader.is_idle());
}

#[test]
fn supplied_chunk_is_held_from_its_first_byte() {
    let mut reader = StreamReader::new();
    assert_eq!(reader.supply(Polled::Chunk(b"hi".to_vec())), None);
    assert!(!reader.is_idle());
    let mut buf = [0u8; 1];
    assert_eq!(reader.read(&mut buf), Some(1));
    assert_eq!(&buf, b"h");
    assert_eq!(reader.read(&mut buf), Some(1));
    assert_eq!(&buf, b"i");
    assert!(reader.is_idle());
}

#[test]
fn answers_that_end_a_read() {
    let mut reader = StreamReader::new();
    assert_eq!(
        reader.supply(Polled::NotReady),
        Some(Err(ReadError::WouldBlock))
    );
    assert!(reader.is_idle());
    assert_eq!(
        reader.supply(Polled::Failed("boom".to_string())),
        Some(Err(ReadError::UpstreamFailure {
            description: "boom".to_string()
        }))
    );
    assert!(reader.is_idle());
    assert!(!reader.is_ended());
    assert_eq!(reader.supply(Polled::End), Some(Ok(0)));
    assert!(reader.is_ended());
    assert!(!reader.is_idle());
}

#[test]
fn failure_is_not_the_end() {
    let mut upstream: VecDeque<Polled> = VecDeque::new();
    upstream.push_back(Polled::Failed("reset".to_string()));
    upstream.push_back(Polled::Chunk(b"on".to_vec()));
    upstream.push_back(Polled::End);
    let mut reader = StreamReader::new();
    let mut buf = [0u8; 2];
    assert_eq!(
        read(&mut reader, &mut upstream, &mut buf),
        (
            Err(ReadError::UpstreamFailure {
                description: "reset".to_string()
            }),
            1
        )
    );
    assert_eq!(read(&mut reader, &mut upstream, &mut buf), (Ok(2), 1));
    assert_eq!(&buf, b"on");
    assert_eq!(read(&mut reader, &mut upstream, &mut buf), (Ok(0), 1));
    assert_eq!(read(&mut reader, &mut upstream, &mut buf), (Ok(0), 0));
}

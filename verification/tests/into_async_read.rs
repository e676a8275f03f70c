use poll_bridge::error::{Error, ErrorKind};
use poll_bridge::into_async_read::IntoAsyncRead;
use poll_bridge::io::{AsyncBufRead, AsyncRead};
use poll_bridge::stream::{iter, Iter};
use poll_bridge::task::{Context, Poll};

fn chunks(n: usize) -> Vec<Result<Vec<u8>, Error>> {
    let mut items = Vec::new();
    for _ in 0..n {
        items.push(Ok(vec![1, 2, 3, 4, 5]));
    }
    items
}

fn read_ready(reader: &mut IntoAsyncRead<Iter>, buf: &mut [u8]) -> usize {
    let mut cx = Context::new();
    match reader.poll_read(&mut cx, buf) {
        Poll::Ready(Ok(x)) => x,
        Poll::Ready(Err(err)) => panic!("assertion failed: expected value but got {:?}", err),
        Poll::Pending => panic!("assertion failed: reader was not ready"),
    }
}

fn fill_ready(reader: &mut IntoAsyncRead<Iter>) -> Vec<u8> {
    let mut cx = Context::new();
    match reader.poll_fill_buf(&mut cx) {
        Poll::Ready(Ok(x)) => x.to_vec(),
        Poll::Ready(Err(err)) => panic!("assertion failed: expected value but got {:?}", err),
        Poll::Pending => panic!("assertion failed: reader was not ready"),
    }
}

#[test]
fn test_into_async_read() {
    let stream = iter(chunks(3));
    let mut reader = IntoAsyncRead::new(stream);
    let mut buf = vec![0; 3];

    assert_eq!(read_ready(&mut reader, &mut buf), 3);
    assert_eq!(&buf, &[1, 2, 3]);

    assert_eq!(read_ready(&mut reader, &mut buf), 2);
    assert_eq!(&buf[..2], &[4, 5]);

    assert_eq!(read_ready(&mut reader, &mut buf), 3);
    assert_eq!(&buf, &[1, 2, 3]);

    assert_eq!(read_ready(&mut reader, &mut buf), 2);
    assert_eq!(&buf[..2], &[4, 5]);

    assert_eq!(read_ready(&mut reader, &mut buf), 3);
    assert_eq!(&buf, &[1, 2, 3]);

    assert_eq!(read_ready(&mut reader, &mut buf), 2);
    assert_eq!(&buf[..2], &[4, 5]);

    assert_eq!(read_ready(&mut reader, &mut buf), 0);
}

#[test]
fn test_into_async_bufread() {
    let stream = iter(chunks(2));
    let mut reader = IntoAsyncRead::new(stream);

    assert_eq!(fill_ready(&mut reader), &[1, 2, 3, 4, 5][..]);
    reader.consume(3);

    assert_eq!(fill_ready(&mut reader), &[4, 5][..]);
    reader.consume(2);

    assert_eq!(fill_ready(&mut reader), &[1, 2, 3, 4, 5][..]);
    reader.consume(2);

    assert_eq!(fill_ready(&mut reader), &[3, 4, 5][..]);
    reader.consume(3);

    assert_eq!(fill_ready(&mut reader), &[][..]);
}

#[test]
fn one_byte_reads_walk_through_the_chunks() {
    let stream = iter(vec![Ok(b"AB".to_vec()), Ok(b"CDE".to_vec())]);
    let mut reader = IntoAsyncRead::new(stream);
    let mut buf = [0u8; 1];
    for expected in b"ABCDE" {
        assert_eq!(read_ready(&mut reader, &mut buf), 1);
        assert_eq!(buf[0], *expected);
    }
    assert_eq!(read_ready(&mut reader, &mut buf), 0);
    assert_eq!(read_ready(&mut reader, &mut buf), 0);
    assert_eq!(buf[0], b'E');
}

#[test]
fn reads_reproduce_the_concatenation_for_any_buffer_sizes() {
    let items: Vec<Vec<u8>> = vec![
        vec![],
        vec![1, 2, 3],
        vec![],
        vec![],
        vec![4],
        vec![5, 6, 7, 8, 9, 10, 11],
        vec![],
    ];
    let all: Vec<u8> = items.concat();
    for size in 0..10usize {
        let stream = iter(items.iter().cloned().map(Ok).collect());
        let mut reader = IntoAsyncRead::new(stream);
        let mut out = Vec::new();
        let mut polls = 0;
        loop {
            let mut buf = vec![0u8; (size + polls) % 5 + 1];
            let n = read_ready(&mut reader, &mut buf);
            out.extend_from_slice(&buf[..n]);
            polls += 1;
            if reader.stream.items.is_empty() && n == 0 {
                break;
            }
        }
        assert_eq!(out, all);
        assert_eq!(out.len(), 11);
    }
}

#[test]
fn a_stream_that_ends_at_once_reads_as_empty() {
    let mut reader = IntoAsyncRead::new(iter(Vec::new()));
    let mut buf = [7u8; 4];
    assert_eq!(read_ready(&mut reader, &mut buf), 0);
    assert_eq!(buf, [7, 7, 7, 7]);
    assert_eq!(fill_ready(&mut reader), Vec::<u8>::new());
}

#[test]
fn an_empty_chunk_reads_as_zero_bytes_and_the_reader_goes_on() {
    let mut reader = IntoAsyncRead::new(iter(vec![Ok(vec![]), Ok(vec![9])]));
    let mut buf = [0u8; 4];
    assert_eq!(read_ready(&mut reader, &mut buf), 0);
    assert_eq!(read_ready(&mut reader, &mut buf), 1);
    assert_eq!(buf[0], 9);
    assert_eq!(read_ready(&mut reader, &mut buf), 0);
}

#[test]
fn a_short_read_is_not_topped_up_from_the_next_chunk() {
    let mut reader = IntoAsyncRead::new(iter(vec![Ok(vec![1, 2]), Ok(vec![3, 4])]));
    let mut buf = [0u8; 4];
    assert_eq!(read_ready(&mut reader, &mut buf), 2);
    assert_eq!(buf, [1, 2, 0, 0]);
    assert_eq!(reader.stream.items.len(), 1);
}

#[test]
fn a_read_into_an_empty_buffer_still_pulls_a_chunk() {
    let mut reader = IntoAsyncRead::new(iter(vec![Ok(vec![1, 2])]));
    let mut buf = [0u8; 0];
    assert_eq!(read_ready(&mut reader, &mut buf), 0);
    assert_eq!(reader.stream.items.len(), 0);
    assert_eq!(fill_ready(&mut reader), vec![1, 2]);
}

#[test]
fn a_failure_is_surfaced_once_and_then_the_reader_is_exhausted() {
    let refused = Error::from_raw_os_error(ErrorKind::ConnectionReset, 104);
    let stream = iter(vec![Ok(vec![1]), Err(refused), Ok(vec![2])]);
    let mut reader = IntoAsyncRead::new(stream);
    let mut cx = Context::new();
    let mut buf = [0u8; 2];
    assert_eq!(reader.poll_read(&mut cx, &mut buf), Poll::Ready(Ok(1)));
    assert_eq!(reader.poll_read(&mut cx, &mut buf), Poll::Ready(Err(refused)));
    assert_eq!(reader.poll_read(&mut cx, &mut buf), Poll::Ready(Ok(0)));
    assert_eq!(reader.poll_read(&mut cx, &mut buf), Poll::Ready(Ok(0)));
    assert_eq!(fill_ready(&mut reader), Vec::<u8>::new());
    // the chunk behind the failure was never pulled
    assert_eq!(reader.stream.items.len(), 1);
    assert!(!cx.is_woken());
}

#[test]
fn a_failure_met_by_a_peek_is_surfaced_once() {
    let broken = Error::new(ErrorKind::InvalidData);
    let mut reader = IntoAsyncRead::new(iter(vec![Err(broken), Ok(vec![2])]));
    let mut cx = Context::new();
    assert_eq!(reader.poll_fill_buf(&mut cx), Poll::Ready(Err(broken)));
    assert_eq!(reader.poll_fill_buf(&mut cx), Poll::Ready(Ok(&[][..])));
    let mut buf = [0u8; 2];
    assert_eq!(reader.poll_read(&mut cx, &mut buf), Poll::Ready(Ok(0)));
    assert_eq!(reader.stream.items.len(), 1);
}

#[test]
fn an_exhausted_reader_leaves_the_stream_alone() {
    let mut reader = IntoAsyncRead::new(iter(Vec::new()));
    let mut buf = [0u8; 2];
    assert_eq!(read_ready(&mut reader, &mut buf), 0);
    // what arrives upstream after the end is never looked at
    reader.stream.items.push(Ok(vec![1, 2, 3]));
    assert_eq!(read_ready(&mut reader, &mut buf), 0);
    assert_eq!(fill_ready(&mut reader), Vec::<u8>::new());
    assert_eq!(reader.stream.items.len(), 1);
}

#[test]
fn a_peek_does_not_consume() {
    let mut reader = IntoAsyncRead::new(iter(vec![Ok(vec![1, 2, 3])]));
    assert_eq!(reader.exposed_len(), 0);
    assert_eq!(fill_ready(&mut reader), vec![1, 2, 3]);
    assert_eq!(reader.exposed_len(), 3);
    assert_eq!(fill_ready(&mut reader), vec![1, 2, 3]);
    reader.consume(0);
    assert_eq!(fill_ready(&mut reader), vec![1, 2, 3]);
    reader.consume(1);
    let mut buf = [0u8; 8];
    assert_eq!(read_ready(&mut reader, &mut buf), 2);
    assert_eq!(&buf[..2], &[2, 3]);
}

#[test]
fn a_peek_drops_an_empty_chunk_and_asks_to_be_polled_again() {
    let mut reader = IntoAsyncRead::new(iter(vec![Ok(vec![]), Ok(vec![5, 6])]));
    let mut cx = Context::new();
    assert_eq!(reader.poll_fill_buf(&mut cx), Poll::Pending);
    assert!(cx.take_wake());
    assert_eq!(reader.poll_fill_buf(&mut cx), Poll::Ready(Ok(&[5, 6][..])));
    assert!(!cx.is_woken());
    reader.consume(2);
    assert_eq!(reader.poll_fill_buf(&mut cx), Poll::Ready(Ok(&[][..])));
}

#[test]
fn consuming_nothing_without_a_chunk_changes_nothing() {
    let mut reader = IntoAsyncRead::new(iter(vec![Ok(vec![5, 6])]));
    reader.consume(0);
    assert_eq!(reader.stream.items.len(), 1);
    assert_eq!(fill_ready(&mut reader), vec![5, 6]);
}

use bollard::buffer::{find_newline, take_line, NEWLINE};
use bytes::BytesMut;

#[test]
fn newline_is_the_line_feed() {
    assert_eq!(NEWLINE, b'\n');
}

#[test]
fn first_newline_is_found() {
    assert_eq!(find_newline(b""), None);
    assert_eq!(find_newline(b"abc"), None);
    assert_eq!(find_newline(b"\n"), Some(0));
    assert_eq!(find_newline(b"ab\ncd\n"), Some(2));
    assert_eq!(find_newline(b"\r\n"), Some(1));
}

#[test]
fn line_is_taken_with_its_newline() {
    let mut buf = BytesMut::from(&b"one\ntwo\nthr"[..]);
    let taken = take_line(&mut buf).unwrap();
    assert_eq!(&taken[..], b"one\n");
    assert_eq!(&buf[..], b"two\nthr");
    let taken = take_line(&mut buf).unwrap();
    assert_eq!(&taken[..], b"two\n");
    assert_eq!(&buf[..], b"thr");
    assert!(take_line(&mut buf).is_none());
    assert_eq!(&buf[..], b"thr");
}

#[test]
fn long_line_is_taken_whole() {
    let mut bytes = vec![b'x'; 5000];
    bytes.push(b'\n');
    bytes.extend_from_slice(b"rest");
    let mut buf = BytesMut::from(bytes);
    let taken = take_line(&mut buf).unwrap();
    assert_eq!(taken.len(), 5001);
    assert_eq!(taken[5000], b'\n');
    assert_eq!(&buf[..], b"rest");
}

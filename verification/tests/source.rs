use encodingbufreader::ByteSource;

#[test]
fn read_until_takes_the_delimiter_too() {
    let mut source = ByteSource::new(b"ab\ncd");
    let mut buf = Vec::new();
    assert_eq!(source.read_until(b'\n', &mut buf), 3);
    assert_eq!(buf, b"ab\n");
    assert_eq!(source.fill_buf(), b"cd");
}

#[test]
fn read_until_takes_all_where_no_delimiter_is_left() {
    let mut source = ByteSource::new(b"ab\ncd");
    let mut buf = Vec::new();
    source.read_until(b'\n', &mut buf);
    assert_eq!(source.read_until(b'\n', &mut buf), 2);
    assert_eq!(buf, b"ab\ncd");
    assert_eq!(source.read_until(b'\n', &mut buf), 0);
    assert_eq!(buf, b"ab\ncd");
}

#[test]
fn read_until_appends_behind_what_is_there() {
    let mut source = ByteSource::new(b"x;y;");
    let mut buf = vec![1u8, 2];
    assert_eq!(source.read_until(b';', &mut buf), 2);
    assert_eq!(buf, [1, 2, b'x', b';']);
}

#[test]
fn read_until_stops_at_the_first_delimiter() {
    let mut source = ByteSource::new(b"\n\n");
    let mut buf = Vec::new();
    assert_eq!(source.read_until(b'\n', &mut buf), 1);
    assert_eq!(source.read_until(b'\n', &mut buf), 1);
    assert_eq!(source.read_until(b'\n', &mut buf), 0);
    assert_eq!(buf, b"\n\n");
}

#[test]
fn consume_stops_at_the_end() {
    let mut source = ByteSource::new(b"abc");
    source.consume(0);
    assert_eq!(source.fill_buf(), b"abc");
    source.consume(2);
    assert_eq!(source.fill_buf(), b"c");
    source.consume(usize::MAX);
    assert_eq!(source.fill_buf(), b"");
    source.consume(1);
    assert_eq!(source.fill_buf(), b"");
}

#[test]
fn read_fills_the_front_of_the_buffer() {
    let mut source = ByteSource::new(b"abcde");
    let mut buf = [0u8; 3];
    assert_eq!(source.read(&mut buf), 3);
    assert_eq!(&buf, b"abc");
    let mut buf = [b'.'; 4];
    assert_eq!(source.read(&mut buf), 2);
    assert_eq!(&buf, b"de..");
    assert_eq!(source.read(&mut buf), 0);
    assert_eq!(&buf, b"de..");
}

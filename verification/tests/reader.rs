use encodingbufreader::{BufReaderEncoding, Codec, ReadError};

fn utf8() -> Codec {
    Codec::from_label("utf-8").expect("utf-8 is a known label")
}

fn gb18030() -> Codec {
    Codec::from_label("gb18030").expect("gb18030 is a known label")
}

const GB18030_TEXT: &[u8] = &[
    213, 226, 202, 199, 210, 187, 184, 246, 215, 214, 183, 251, 180, 174, 10, 189, 171, 187, 225,
    177, 187, 182, 193, 200, 161,
];

#[test]
fn test_decodeuft8() {
    let bytes = "This string\nwill be read".as_bytes();
    let mut lines = BufReaderEncoding::new(bytes, utf8()).lines();
    let mut lines_iter = std::iter::from_fn(move || lines.next()).map(|l| l.unwrap());
    assert_eq!(lines_iter.next(), Some(String::from("This string")));
    assert_eq!(lines_iter.next(), Some(String::from("will be read")));
    assert_eq!(lines_iter.next(), None);
}

#[test]
fn test_decode_gb18030() {
    let bytes: &[u8] = &[
        213, 226, 202, 199, 210, 187, 184, 246, 215, 214, 183, 251, 180, 174, 10, 189, 171,
        187, 225, 177, 187, 182, 193, 200, 161,
    ];
    let mut lines = BufReaderEncoding::new(bytes, gb18030()).lines();
    let mut lines_iter = std::iter::from_fn(move || lines.next()).map(|l| l.unwrap());
    assert_eq!(
        lines_iter.next(),
        Some(String::from("这是一个字符串"))
    );
    assert_eq!(lines_iter.next(), Some(String::from("将会被读取")));
    assert_eq!(lines_iter.next(), None);
}

#[test]
fn test_decode_readline() {
    let bytes: &[u8] = &[
        213, 226, 202, 199, 210, 187, 184, 246, 215, 214, 183, 251, 180, 174, 10, 189, 171,
        187, 225, 177, 187, 182, 193, 200, 161,
    ];
    let mut reader = BufReaderEncoding::new(bytes, gb18030());
    let mut buf = String::new();
    let num_bytes = reader
        .read_line(&mut buf)
        .expect("reading from bytes won't fail");
    assert_eq!(num_bytes, 15);
    assert_eq!(buf, "这是一个字符串\n");
}

#[test]
fn read_line_counts_raw_bytes_not_characters() {
    let mut reader = BufReaderEncoding::new(GB18030_TEXT, gb18030());
    let mut buf = String::new();
    assert_eq!(reader.read_line(&mut buf).unwrap(), 15);
    assert_eq!(buf.chars().count(), 8);
    assert_eq!(reader.fill_buf().len(), 10);
    buf.clear();
    assert_eq!(reader.read_line(&mut buf).unwrap(), 10);
    assert_eq!(buf, "将会被读取");
    assert_eq!(buf.chars().count(), 5);
}

#[test]
fn read_line_appends_to_the_buffer() {
    let mut reader = BufReaderEncoding::new(b"one\ntwo\n", utf8());
    let mut buf = String::from("> ");
    assert_eq!(reader.read_line(&mut buf).unwrap(), 4);
    assert_eq!(buf, "> one\n");
    assert_eq!(reader.read_line(&mut buf).unwrap(), 4);
    assert_eq!(buf, "> one\ntwo\n");
}

#[test]
fn read_line_keeps_returning_zero_at_the_end() {
    let mut reader = BufReaderEncoding::new(b"last", utf8());
    let mut buf = String::new();
    assert_eq!(reader.read_line(&mut buf).unwrap(), 4);
    for _ in 0..5 {
        assert_eq!(reader.read_line(&mut buf).unwrap(), 0);
        assert_eq!(buf, "last");
    }
}

#[test]
fn read_line_on_an_empty_stream() {
    let mut reader = BufReaderEncoding::new(b"", utf8());
    let mut buf = String::from("kept");
    assert_eq!(reader.read_line(&mut buf).unwrap(), 0);
    assert_eq!(buf, "kept");
}

#[test]
fn read_line_reads_an_empty_line_as_one_byte() {
    let mut reader = BufReaderEncoding::new(b"\n\nx", utf8());
    let mut buf = String::new();
    assert_eq!(reader.read_line(&mut buf).unwrap(), 1);
    assert_eq!(buf, "\n");
    assert_eq!(reader.read_line(&mut buf).unwrap(), 1);
    assert_eq!(reader.read_line(&mut buf).unwrap(), 1);
    assert_eq!(buf, "\n\nx");
    assert_eq!(reader.read_line(&mut buf).unwrap(), 0);
}

#[test]
fn invalid_sequences_are_replaced_not_refused() {
    let mut reader = BufReaderEncoding::new(&[b'a', 0xFF, b'b', b'\n'], utf8());
    let mut buf = String::new();
    assert_eq!(reader.read_line(&mut buf).unwrap(), 4);
    assert_eq!(buf, "a\u{fffd}b\n");
    assert!(reader.staged_bytes().is_empty());
}

#[test]
fn set_encoder_changes_later_lines_only() {
    let mut bytes = b"plain\n".to_vec();
    bytes.extend_from_slice(&GB18030_TEXT[..15]);
    let mut reader = BufReaderEncoding::new(&bytes, utf8());
    let mut buf = String::new();
    assert_eq!(reader.read_line(&mut buf).unwrap(), 6);
    assert_eq!(buf, "plain\n");
    assert_eq!(reader.encoder().label(), "utf-8");
    reader.set_encoder(gb18030());
    assert_eq!(reader.encoder().label(), "gb18030");
    assert_eq!(reader.read_line(&mut buf).unwrap(), 15);
    assert_eq!(buf, "plain\n这是一个字符串\n");
}

#[test]
fn the_same_bytes_read_differently_under_another_codec() {
    let bytes: &[u8] = &[0xE9, b'\n', 0xE9, b'\n'];
    let mut reader = BufReaderEncoding::new(bytes, Codec::from_label("latin1").unwrap());
    let mut buf = String::new();
    assert_eq!(reader.read_line(&mut buf).unwrap(), 2);
    assert_eq!(buf, "é\n");
    reader.set_encoder(Codec::from_label("koi8-r").unwrap());
    assert_eq!(reader.read_line(&mut buf).unwrap(), 2);
    assert_eq!(buf, "é\nИ\n");
}

#[test]
fn with_capacity_reads_what_new_reads() {
    for cap in [0usize, 1, 3, 8192] {
        let mut sized = BufReaderEncoding::with_capacity(cap, GB18030_TEXT, gb18030());
        let mut plain = BufReaderEncoding::new(GB18030_TEXT, gb18030());
        loop {
            let mut a = String::new();
            let mut b = String::new();
            let n = sized.read_line(&mut a).unwrap();
            assert_eq!(n, plain.read_line(&mut b).unwrap());
            assert_eq!(a, b);
            if n == 0 {
                break;
            }
        }
    }
}

#[test]
fn fill_buf_and_consume_pass_bytes_through() {
    let mut reader = BufReaderEncoding::new(b"abcdef\nrest", utf8());
    assert_eq!(reader.fill_buf(), b"abcdef\nrest");
    reader.consume(3);
    assert_eq!(reader.fill_buf(), b"def\nrest");
    let mut buf = String::new();
    assert_eq!(reader.read_line(&mut buf).unwrap(), 4);
    assert_eq!(buf, "def\n");
    reader.consume(100);
    assert_eq!(reader.fill_buf(), b"");
    assert_eq!(reader.read_line(&mut buf).unwrap(), 0);
}

#[test]
fn read_moves_raw_bytes() {
    let mut reader = BufReaderEncoding::new(GB18030_TEXT, gb18030());
    let mut buf = [0u8; 4];
    assert_eq!(reader.read(&mut buf), 4);
    assert_eq!(buf, [213, 226, 202, 199]);
    let mut big = [7u8; 30];
    assert_eq!(reader.read(&mut big), 21);
    assert_eq!(&big[..21], &GB18030_TEXT[4..]);
    assert_eq!(&big[21..], &[7u8; 9]);
    assert_eq!(reader.read(&mut big), 0);
    let mut none: [u8; 0] = [];
    assert_eq!(reader.read(&mut none), 0);
}

#[test]
fn read_error_variants_are_told_apart() {
    assert!(ReadError::InvalidData.is_invalid_data());
    let io = ReadError::Io(std::io::Error::new(std::io::ErrorKind::Other, "gone"));
    assert!(!io.is_invalid_data());
}

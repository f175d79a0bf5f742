use comprehensive_rust::lines::{count_lines, log};
use std::io::BufRead;

#[test]
fn test_read() {
    let slice: &[u8] = b"foo\nbar\nbaz\n"; // type annotation is required, so this becomes a byte
                                           // slice rather than a byte array
    println!("lines in slice {}", count_lines(slice));
}

#[test]
fn test_write() {
    let mut buffer = Vec::<u8>::new();
    log(&mut buffer, "Hello");
    log(&mut buffer, "World");
    println!("logged: {:?}", buffer);
}

#[test]
fn log_appends_the_message_and_a_line_end() {
    let mut buffer = Vec::<u8>::new();
    log(&mut buffer, "Hello");
    assert_eq!(buffer, b"Hello\n");
    log(&mut buffer, "World");
    assert_eq!(buffer, b"Hello\nWorld\n");
    log(&mut buffer, "");
    assert_eq!(buffer, b"Hello\nWorld\n\n");
    log(&mut buffer, "\u{e9}\u{20ac}");
    assert_eq!(buffer, b"Hello\nWorld\n\n\xc3\xa9\xe2\x82\xac\n");
}

#[test]
fn count_lines_counts_what_a_line_reader_yields() {
    let cases: [&[u8]; 9] = [
        b"foo\nbar\nbaz\n",
        b"foo\nbar\nbaz",
        b"",
        b"\n",
        b"\n\n\n",
        b"no end",
        b"\r\n\r\n",
        b"a\n\nb",
        b"\xff\xfe\nbroken text\n",
    ];
    let expected = [3, 3, 0, 1, 3, 1, 2, 3, 2];
    for (case, lines) in cases.iter().zip(expected) {
        assert_eq!(count_lines(case), lines);
        assert_eq!(count_lines(case), std::io::BufReader::new(*case).lines().count());
    }
}

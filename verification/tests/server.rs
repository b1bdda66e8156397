use stabilizer::server::{answer, reply_line, Server, Step};

/// What the server made of a line.
#[derive(Debug, PartialEq)]
enum Seen {
    Refused,
    Line(Vec<u8>),
}

/// Feeds a window to the server, as often as it takes to use it up.
fn feed(server: &mut Server, window: &[u8], seen: &mut Vec<Seen>) {
    let mut rest = window;
    while !rest.is_empty() {
        let consumed = match server.poll(Some(rest)) {
            Step::Idle => panic!("there is something to receive"),
            Step::Partial { consumed } => {
                assert_eq!(consumed, rest.len());
                consumed
            }
            Step::Overflow { consumed, response } => {
                assert_eq!(response.code, 520);
                assert_eq!(response.message, "command buffer overflow");
                assert_eq!(rest[consumed - 1], b'\n');
                seen.push(Seen::Refused);
                consumed
            }
            Step::Command { consumed, line } => {
                assert_eq!(rest[consumed - 1], b'\n');
                seen.push(Seen::Line(line.as_slice().to_vec()));
                consumed
            }
        };
        rest = &rest[consumed..];
    }
}

/// Feeds a stream in windows of one size.
fn in_windows(stream: &[u8], size: usize) -> Vec<Seen> {
    let mut server = Server::new();
    let mut seen = Vec::new();
    for window in stream.chunks(size) {
        feed(&mut server, window, &mut seen);
    }
    seen
}

fn line_of(length: usize) -> Vec<u8> {
    let mut line = vec![b'x'; length];
    line.push(b'\n');
    line
}

#[test]
fn nothing_to_receive() {
    let mut server = Server::new();
    assert!(matches!(server.poll(None), Step::Idle));
}

#[test]
fn idle_round_keeps_the_line_so_far() {
    let mut server = Server::new();
    let mut seen = Vec::new();
    feed(&mut server, b"ab", &mut seen);
    assert!(matches!(server.poll(None), Step::Idle));
    feed(&mut server, b"c\n", &mut seen);
    assert_eq!(seen, vec![Seen::Line(b"abc".to_vec())]);
}

#[test]
fn a_window_is_used_up_to_the_first_newline() {
    let mut server = Server::new();
    match server.poll(Some(b"one\ntwo\n")) {
        Step::Command { consumed, line } => {
            assert_eq!(consumed, 4);
            assert_eq!(line.as_slice(), b"one");
        }
        _ => panic!("a line ends in the window"),
    }
}

#[test]
fn empty_line_is_handed_over() {
    assert_eq!(in_windows(b"\n", 1), vec![Seen::Line(Vec::new())]);
}

#[test]
fn longest_line() {
    assert_eq!(in_windows(&line_of(254), 1000), vec![Seen::Line(vec![b'x'; 254])]);
    assert_eq!(in_windows(&line_of(255), 1000), vec![Seen::Refused]);
    assert_eq!(in_windows(&line_of(256), 1000), vec![Seen::Refused]);
    assert_eq!(in_windows(&line_of(5000), 1000), vec![Seen::Refused]);
}

#[test]
fn a_refused_line_does_not_affect_the_next() {
    let mut stream = line_of(300);
    stream.extend_from_slice(b"next\n");
    for size in [1, 7, 255, 256, 257, 299, 300, 301, 302, 1000] {
        assert_eq!(
            in_windows(&stream, size),
            vec![Seen::Refused, Seen::Line(b"next".to_vec())]
        );
    }
}

#[test]
fn pieces_do_not_matter() {
    let mut stream = Vec::new();
    for length in [0, 1, 100, 253, 254, 255, 256, 600, 3, 254] {
        stream.extend_from_slice(&line_of(length));
    }
    let whole = in_windows(&stream, stream.len());
    assert_eq!(whole.len(), 10);
    for size in 1..stream.len() {
        assert_eq!(in_windows(&stream, size), whole);
    }
}

#[test]
fn one_verdict_per_line() {
    let stream = b"{}\n\n\nunfinished";
    assert_eq!(in_windows(stream, 4).len(), 3);
}

#[test]
fn answers() {
    let ok = answer(true);
    assert_eq!(ok.response.code, 200);
    assert_eq!(ok.response.message, "ok");
    assert!(ok.handled);
    let bad = answer(false);
    assert_eq!(bad.response.code, 550);
    assert_eq!(bad.response.message, "parse error");
    assert!(!bad.handled);
}

#[test]
fn reply_ends_in_a_newline() {
    let json = heapless::String::from("{\"code\":200,\"message\":\"ok\"}");
    let line = reply_line(json).unwrap();
    assert_eq!(line.as_str(), "{\"code\":200,\"message\":\"ok\"}\n");
}

#[test]
fn reply_has_room_for_128_bytes() {
    let text = "y".repeat(127);
    let line = reply_line(heapless::String::from(text.as_str())).unwrap();
    assert_eq!(line.len(), 128);
    let text = "y".repeat(128);
    assert!(reply_line(heapless::String::from(text.as_str())).is_err());
    let text = "\u{e9}".repeat(64);
    assert!(reply_line(heapless::String::from(text.as_str())).is_err());
}

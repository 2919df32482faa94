use hcp::drain::StreamDrainer;

/// Feeds `chunks` and ends the stream; returns the capture and every write.
fn drain(chunks: &[&[u8]], tee: bool) -> (Vec<u8>, Vec<Vec<u8>>) {
    let mut d = StreamDrainer::new(tee);
    let mut writes = Vec::new();
    for c in chunks {
        if let Some(w) = d.feed(c) {
            writes.push(w);
        }
    }
    if let Some(w) = d.finish() {
        writes.push(w);
    }
    (d.into_captured(), writes)
}

#[test]
fn partial_last_line_waits_for_end() {
    let mut d = StreamDrainer::new(true);
    assert_eq!(d.feed(b"hello\nworld"), Some(b"hello\n".to_vec()));
    assert_eq!(d.finish(), Some(b"world".to_vec()));
    assert_eq!(d.into_captured(), b"hello\nworld".to_vec());
}

#[test]
fn capture_equals_input_with_and_without_sink() {
    let chunks: [&[u8]; 4] = [b"ab", b"c\nd", b"", b"\xff\x00e\r"];
    for tee in [false, true] {
        let (captured, _) = drain(&chunks, tee);
        assert_eq!(captured, b"abc\nd\xff\x00e\r".to_vec());
    }
}

#[test]
fn sink_receives_input_exactly_across_split_chunks() {
    let input = b"one\ntwo\r\nthree\n\nfour";
    for size in 1..=input.len() {
        let chunks: Vec<&[u8]> = input.chunks(size).collect();
        let (captured, writes) = drain(&chunks, true);
        assert_eq!(captured, input.to_vec());
        assert_eq!(writes.concat(), input.to_vec(), "chunk size {}", size);
        for w in &writes[..writes.len() - 1] {
            let last = *w.last().unwrap();
            assert!(last == b'\n' || last == b'\r');
        }
    }
}

#[test]
fn no_sink_no_writes() {
    let mut d = StreamDrainer::new(false);
    assert_eq!(d.feed(b"line\n"), None);
    assert_eq!(d.feed(b"more"), None);
    assert_eq!(d.finish(), None);
    assert_eq!(d.into_captured(), b"line\nmore".to_vec());
}

#[test]
fn no_terminator_keeps_buffering_then_forwards_later() {
    let mut d = StreamDrainer::new(true);
    assert_eq!(d.feed(b"abc"), None);
    assert_eq!(d.feed(b"def"), None);
    assert_eq!(d.feed(b"g\nh"), Some(b"abcdefg\n".to_vec()));
    assert_eq!(d.feed(b"\r"), Some(b"h\r".to_vec()));
    assert_eq!(d.finish(), None);
}

#[test]
fn empty_stream() {
    let (captured, writes) = drain(&[], true);
    assert!(captured.is_empty());
    assert!(writes.is_empty());
}

use tls_admit::replay::ReplayableStream;

#[test]
fn fresh_stream_replays_exactly_the_prefix() {
    let prefix = b"hello world".to_vec();
    let mut s = ReplayableStream::new(prefix.clone());
    assert_eq!(s.pending(), prefix.len());
    assert_eq!(s.drain_all(), prefix);
    assert_eq!(s.pending(), 0);
}

#[test]
fn chunked_reads_preserve_order_without_loss_or_duplication() {
    let prefix = b"abcdefghij".to_vec();
    let mut s = ReplayableStream::new(prefix.clone());
    let mut seen: Vec<u8> = Vec::new();
    seen.extend(s.read_into(3));
    seen.extend(s.read_into(4));
    seen.extend(s.read_into(100));
    assert_eq!(seen, prefix);
    assert_eq!(s.pending(), 0);
}

#[test]
fn read_past_the_end_yields_what_remains() {
    let mut s = ReplayableStream::new(b"xy".to_vec());
    assert_eq!(s.read_into(8), b"xy".to_vec());
    assert_eq!(s.read_into(8), Vec::<u8>::new());
}

#[test]
fn empty_prefix_replays_nothing() {
    let mut s = ReplayableStream::new(Vec::new());
    assert_eq!(s.pending(), 0);
    assert_eq!(s.drain_all(), Vec::<u8>::new());
}

#[test]
fn live_bytes_follow_the_prefix_in_order() {
    // The stream hands back its prefix first; a reader then switches to the
    // live socket, so the observable bytes are prefix ++ live.
    let prefix = b"peeked".to_vec();
    let live = b" and the rest".to_vec();
    let mut s = ReplayableStream::new(prefix.clone());
    let mut observed = s.drain_all();
    observed.extend(live.iter().copied());
    let mut expected = prefix.clone();
    expected.extend(live.iter().copied());
    assert_eq!(observed, expected);
}

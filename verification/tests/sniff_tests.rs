use tls_admit::identity::{identity_from_dns_names, no_tls_identity, Name, PeerIdentity, ReasonForNoPeerName};
use tls_admit::replay::ReplayableStream;
use tls_admit::sniff::{PeekStep, SniffStep, TlsSniffer, BUFFER_CAPACITY, PEEK_CAPACITY};

/// Builds a TLS record holding a ClientHello whose SNI is `name`, padded to
/// `pad_to` bytes in total when that is larger than the bare size.
fn client_hello_with_sni(name: &[u8], pad_to: usize) -> Vec<u8> {
    let mut sni: Vec<u8> = Vec::new();
    let list_len = name.len() + 3;
    let ext_len = list_len + 2;
    sni.extend_from_slice(&[0, 0]);
    sni.extend_from_slice(&(ext_len as u16).to_be_bytes());
    sni.extend_from_slice(&(list_len as u16).to_be_bytes());
    sni.push(0);
    sni.extend_from_slice(&(name.len() as u16).to_be_bytes());
    sni.extend_from_slice(name);

    let mut exts = sni;
    let base_total = 5 + 4 + 41 + 2 + exts.len();
    if pad_to > base_total {
        let pad_content = pad_to - base_total - 4;
        exts.extend_from_slice(&[0, 21]);
        exts.extend_from_slice(&(pad_content as u16).to_be_bytes());
        exts.extend(std::iter::repeat(0u8).take(pad_content));
    }

    let mut hello: Vec<u8> = Vec::new();
    hello.extend_from_slice(&[3, 3]);
    hello.extend_from_slice(&[0u8; 32]);
    hello.push(0);
    hello.extend_from_slice(&[0, 2, 0x13, 0x01]);
    hello.extend_from_slice(&[1, 0]);
    hello.extend_from_slice(&(exts.len() as u16).to_be_bytes());
    hello.extend_from_slice(&exts);

    let mut msg: Vec<u8> = vec![1];
    let l = hello.len();
    msg.extend_from_slice(&[(l >> 16) as u8, (l >> 8) as u8, l as u8]);
    msg.extend_from_slice(&hello);

    let mut rec: Vec<u8> = vec![22, 3, 1];
    rec.extend_from_slice(&(msg.len() as u16).to_be_bytes());
    rec.extend_from_slice(&msg);
    rec
}

fn sniffer() -> TlsSniffer {
    TlsSniffer::new(Name::new(b"foo.id.example".to_vec()))
}

#[test]
fn matching_hello_in_one_peek_terminates() {
    // A ~300-byte ClientHello for the local identity, arriving in one read.
    let hello = client_hello_with_sni(b"foo.id.example", 300);
    assert!(hello.len() <= PEEK_CAPACITY);
    let s = sniffer();
    assert_eq!(s.on_peek(&hello), PeekStep::Terminate);
    // The peer identity then comes from the certificate's first DNS name.
    let id = identity_from_dns_names(vec![b"foo.id.example".to_vec()]);
    assert_eq!(id, PeerIdentity::Verified(Name::new(b"foo.id.example".to_vec())));
}

#[test]
fn non_tls_peek_passes_through_with_nothing_consumed() {
    let req = b"GET / HTTP/1.1\r\nHost: example\r\n\r\n".to_vec();
    let s = sniffer();
    assert_eq!(s.on_peek(&req), PeekStep::PassThroughEmpty);
    assert_eq!(
        no_tls_identity(),
        PeerIdentity::Unverified(ReasonForNoPeerName::NoTlsFromRemote)
    );
}

#[test]
fn short_peek_escalates_to_buffering() {
    let hello = client_hello_with_sni(b"foo.id.example", 0);
    let s = sniffer();
    assert_eq!(s.on_peek(&hello[..10].to_vec()), PeekStep::StartBuffer);
}

#[test]
fn hello_split_across_three_reads_terminates_with_full_prefix() {
    let hello = client_hello_with_sni(b"foo.id.example", 0);
    let mut s = sniffer();
    let first = hello[..20].to_vec();
    let second = hello[20..50].to_vec();
    let third = hello[50..].to_vec();
    assert_eq!(s.on_read(first), SniffStep::ReadMore);
    assert_eq!(s.on_read(second), SniffStep::ReadMore);
    assert_eq!(s.on_read(third), SniffStep::Terminate);
    // The handshake replays exactly the reassembled prefix.
    assert_eq!(s.into_buffered(), hello);
}

#[test]
fn non_matching_buffered_hello_passes_through_with_prefix() {
    let hello = client_hello_with_sni(b"bar.id.example", 0);
    let mut s = sniffer();
    assert_eq!(s.on_read(hello[..20].to_vec()), SniffStep::ReadMore);
    assert_eq!(s.on_read(hello[20..].to_vec()), SniffStep::PassThrough);
    assert_eq!(s.into_buffered(), hello);
}

#[test]
fn end_of_stream_while_undecided_passes_through() {
    let hello = client_hello_with_sni(b"foo.id.example", 0);
    let mut s = sniffer();
    assert_eq!(s.on_read(hello[..20].to_vec()), SniffStep::ReadMore);
    assert_eq!(s.on_read(Vec::new()), SniffStep::PassThrough);
    assert_eq!(s.into_buffered(), hello[..20].to_vec());
}

#[test]
fn ceiling_reached_while_undecided_passes_through_and_keeps_bytes() {
    // A record that claims far more data than ever arrives: every prefix is
    // Incomplete, so the buffer fills to its ceiling and the sniffer gives
    // up without error.
    let mut bytes: Vec<u8> = vec![22, 3, 1, 0x2f, 0xff];
    bytes.push(1);
    bytes.extend_from_slice(&[0x00, 0x2f, 0xf4]);
    bytes.extend_from_slice(&[3, 3]);
    bytes.extend_from_slice(&[0u8; 32]);
    bytes.push(0);
    bytes.extend_from_slice(&[0, 0]);
    bytes.push(0);
    bytes.extend_from_slice(&[0x2f, 0x00]);
    bytes.extend_from_slice(&[0, 21, 0x2e, 0xf0]);
    bytes.extend(std::iter::repeat(0u8).take(BUFFER_CAPACITY - bytes.len()));
    assert_eq!(bytes.len(), BUFFER_CAPACITY);

    let mut s = sniffer();
    let first = bytes[..4096].to_vec();
    let second = bytes[4096..].to_vec();
    assert_eq!(s.on_read(first), SniffStep::ReadMore);
    assert_eq!(s.on_read(second), SniffStep::PassThrough);
    // All buffered bytes are preserved for replay.
    let kept = s.into_buffered();
    assert_eq!(kept, bytes);
    let mut replay = ReplayableStream::new(kept);
    assert_eq!(replay.drain_all(), bytes);
}

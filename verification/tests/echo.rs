use prime_echo::echo::echo_chunk;

#[test]
fn echoes_a_short_chunk_verbatim() {
    let buf = [104u8, 101, 108, 108, 111];
    assert_eq!(echo_chunk(&buf, 5), vec![104u8, 101, 108, 108, 111]);
}

#[test]
fn echoes_only_the_bytes_that_were_read() {
    let mut buf = [0u8; 16];
    buf[0] = 1;
    buf[1] = 2;
    buf[2] = 3;
    assert_eq!(echo_chunk(&buf, 3), vec![1u8, 2, 3]);
}

#[test]
fn echoes_the_empty_chunk() {
    let buf = [9u8; 4];
    assert_eq!(echo_chunk(&buf, 0), Vec::<u8>::new());
}

#[test]
fn echoes_a_stream_longer_than_the_buffer_in_chunks() {
    // A peer sending more than one buffer's worth of bytes sees them come
    // back verbatim: the stream is read in chunks of at most 1024 bytes and
    // each chunk is echoed exactly.
    let sent: Vec<u8> = (0..3000u32).map(|i| (i % 251) as u8).collect();
    let mut received: Vec<u8> = Vec::new();
    let mut offset = 0usize;
    while offset < sent.len() {
        let n = (sent.len() - offset).min(1024);
        let mut buf = [0u8; 1024];
        buf[..n].copy_from_slice(&sent[offset..offset + n]);
        received.extend_from_slice(&echo_chunk(&buf, n));
        offset += n;
    }
    assert_eq!(received, sent);
}

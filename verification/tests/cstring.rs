use magicpak::cstring::CStringReader;

#[test]
fn reads_up_to_the_terminator_within_one_chunk() {
    let mut reader = CStringReader::new(0x1000);
    assert_eq!(reader.next_address(), Some(0x1000));
    reader.feed(&[b'a', b'b', 0, b'x']);
    assert_eq!(reader.next_address(), None);
    assert_eq!(reader.finish(), Some(vec![b'a', b'b']));
}

#[test]
fn continues_over_chunks_without_terminator() {
    let mut reader = CStringReader::new(0x7fff_0000);
    reader.feed(&[b'/', b'e', b't', b'c']);
    assert_eq!(reader.next_address(), Some(0x7fff_0004));
    reader.feed(&[b'/', b'h', b'o', b's']);
    assert_eq!(reader.next_address(), Some(0x7fff_0008));
    reader.feed(&[b't', b's', 0, 0]);
    assert_eq!(reader.next_address(), None);
    assert_eq!(reader.finish(), Some(b"/etc/hosts".to_vec()));
}

#[test]
fn unfinished_read_gives_nothing() {
    let mut reader = CStringReader::new(16);
    reader.feed(&[1, 2, 3, 4]);
    assert_eq!(reader.finish(), None);
}

#[test]
fn empty_string_when_first_byte_is_zero() {
    let mut reader = CStringReader::new(16);
    reader.feed(&[0, 7, 7, 7]);
    assert_eq!(reader.finish(), Some(Vec::new()));
}

#[test]
fn chunks_after_the_terminator_are_not_taken() {
    let mut reader = CStringReader::new(16);
    reader.feed(&[b'a', 0, b'b', b'c']);
    reader.feed(&[b'd', b'e', b'f', 0]);
    assert_eq!(reader.next_address(), None);
    assert_eq!(reader.finish(), Some(vec![b'a']));
}

#[test]
fn empty_chunk_changes_nothing() {
    let mut reader = CStringReader::new(32);
    reader.feed(&[]);
    assert_eq!(reader.next_address(), Some(32));
    reader.feed(&[b'z', 0]);
    assert_eq!(reader.finish(), Some(vec![b'z']));
}

#[test]
fn chunk_size_does_not_matter() {
    let memory: Vec<u8> = b"/usr/lib/x86_64-linux-gnu/libc.so.6\0trailing".to_vec();
    let mut expected: Option<Vec<u8>> = None;
    for size in 1..=8usize {
        let mut reader = CStringReader::new(0);
        let mut offset = 0usize;
        while reader.next_address().is_some() {
            let end = (offset + size).min(memory.len());
            reader.feed(&memory[offset..end]);
            offset = end;
        }
        let bytes = reader.finish();
        assert_eq!(bytes, Some(b"/usr/lib/x86_64-linux-gnu/libc.so.6".to_vec()));
        if let Some(before) = &expected {
            assert_eq!(Some(before.clone()), bytes);
        }
        expected = bytes;
    }
}

#[test]
fn address_follows_the_bytes_read() {
    let mut reader = CStringReader::new(u64::MAX - 3);
    reader.feed(&[b'a', b'b', b'c', 0]);
    assert_eq!(reader.finish(), Some(b"abc".to_vec()));
    let mut reader = CStringReader::new(100);
    reader.feed(&[1, 2]);
    assert_eq!(reader.next_address(), Some(102));
    reader.feed(&[3, 4, 5]);
    assert_eq!(reader.next_address(), Some(105));
}

#[test]
fn try_feed_takes_what_stays_in_range() {
    let mut reader = CStringReader::new(u64::MAX - 3);
    assert!(reader.try_feed(&[b'a', b'b', b'c', 0]));
    assert_eq!(reader.finish(), Some(b"abc".to_vec()));
}

#[test]
fn try_feed_refuses_to_run_past_the_address_space() {
    let mut reader = CStringReader::new(u64::MAX - 3);
    assert!(!reader.try_feed(&[b'a', b'b', b'c', b'd']));
    assert_eq!(reader.next_address(), Some(u64::MAX - 3));
    assert!(reader.try_feed(&[b'a', 0, b'c', b'd']));
    assert_eq!(reader.finish(), Some(vec![b'a']));
}

#[test]
fn try_feed_after_the_terminator_takes_nothing() {
    let mut reader = CStringReader::new(u64::MAX);
    assert!(reader.try_feed(&[0]));
    assert!(reader.try_feed(&[1, 2, 3, 4]));
    assert_eq!(reader.finish(), Some(Vec::new()));
}

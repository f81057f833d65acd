use polyfuse::dir::{
    dirent_plus_size, dirent_size, DirEntry, DirsBuffer, DirsPlusBuffer, ReplyDirs,
    ReplyDirsPlus,
};
use polyfuse::options::EntryOptions;
use polyfuse::outcome::Payload;
use polyfuse::token::ReplyToken;
use polyfuse::types::{FileAttr, Ttl};

fn sample_attr(ino: u64) -> FileAttr {
    FileAttr {
        ino,
        size: 0,
        mode: 0o040755,
        nlink: 2,
        uid: 0,
        gid: 0,
        rdev: 0,
        blksize: 4096,
        blocks: 0,
    }
}

#[test]
fn encoded_sizes_are_header_plus_padded_name() {
    assert_eq!(dirent_size(0), 24);
    assert_eq!(dirent_size(1), 32);
    assert_eq!(dirent_size(8), 32);
    assert_eq!(dirent_size(9), 40);
    assert_eq!(dirent_plus_size(0), 152);
    assert_eq!(dirent_plus_size(1), 160);
    assert_eq!(dirent_plus_size(16), 168);
}

#[test]
fn listing_sized_for_two_records_accepts_exactly_two() {
    // Each record with a two-byte name encodes to 32 bytes, so 64 bytes of
    // capacity hold exactly two records.
    let mut buffer = DirsBuffer::new(ReplyToken::new(50), 64);
    assert!(buffer.add(DirEntry::new(1, 4, vec![b'a', b'a']), 1));
    assert!(buffer.add(DirEntry::new(2, 4, vec![b'b', b'b']), 2));
    assert!(!buffer.add(DirEntry::new(3, 4, vec![b'c', b'c']), 3));
    let outcome = buffer.send().unwrap();
    assert_eq!(outcome.unique, 50);
    match outcome.payload {
        Payload::Dirs { entries } => {
            assert_eq!(entries.len(), 2);
            assert_eq!(entries[0].ino, 1);
            assert_eq!(entries[1].ino, 2);
        }
        _ => panic!("not a directory payload"),
    }
}

#[test]
fn no_record_is_accepted_after_the_first_refusal() {
    // 32 bytes fit; the 40-byte record overflows 64 and closes the buffer;
    // the next 32-byte record would fit the remaining 32 bytes but must be
    // refused all the same.
    let mut buffer = DirsBuffer::new(ReplyToken::new(51), 64);
    assert!(buffer.add(DirEntry::new(1, 4, vec![b'a'; 2]), 1));
    assert!(!buffer.add(DirEntry::new(2, 4, vec![b'b'; 16]), 2));
    assert!(!buffer.add(DirEntry::new(3, 4, vec![b'c'; 2]), 3));
    let outcome = buffer.send().unwrap();
    match outcome.payload {
        Payload::Dirs { entries } => assert_eq!(entries.len(), 1),
        _ => panic!("not a directory payload"),
    }
}

#[test]
fn record_that_exactly_fills_the_buffer_is_accepted() {
    let mut buffer = DirsBuffer::new(ReplyToken::new(52), 32);
    assert!(buffer.add(DirEntry::new(1, 8, vec![b'x'; 8]), 1));
    assert!(!buffer.add(DirEntry::new(2, 8, vec![b'y']), 2));
    let outcome = buffer.send().unwrap();
    match outcome.payload {
        Payload::Dirs { entries } => assert_eq!(entries.len(), 1),
        _ => panic!("not a directory payload"),
    }
}

#[test]
fn empty_listing_is_valid() {
    let buffer = DirsBuffer::new(ReplyToken::new(53), 4096);
    let outcome = buffer.send().unwrap();
    match outcome.payload {
        Payload::Dirs { entries } => assert!(entries.is_empty()),
        _ => panic!("not a directory payload"),
    }
}

#[test]
fn accepted_records_keep_fields_and_increasing_offsets() {
    let mut buffer = DirsBuffer::new(ReplyToken::new(54), 4096);
    assert!(buffer.add(DirEntry::new(10, 4, vec![b'.']), 1));
    assert!(buffer.add(DirEntry::new(11, 4, vec![b'.', b'.']), 5));
    assert!(buffer.add(DirEntry::new(12, 8, vec![b'f', b'o', b'o']), 9));
    let outcome = buffer.send().unwrap();
    match outcome.payload {
        Payload::Dirs { entries } => {
            assert_eq!(entries.len(), 3);
            assert_eq!(entries[0].name, vec![b'.']);
            assert_eq!(entries[0].typ, 4);
            assert_eq!(entries[2].ino, 12);
            assert_eq!(entries[2].name, vec![b'f', b'o', b'o']);
            for pair in entries.windows(2) {
                assert!(pair[0].offset < pair[1].offset);
            }
        }
        _ => panic!("not a directory payload"),
    }
}

#[test]
fn plus_listing_sized_for_two_records_accepts_exactly_two() {
    // Each record with a two-byte name encodes to 160 bytes, so 320 bytes
    // of capacity hold exactly two records.
    let mut buffer = DirsPlusBuffer::new(ReplyToken::new(55), 320);
    let mut opts = EntryOptions::default();
    opts.ino = 21;
    opts.generation = 3;
    opts.ttl_entry = Some(Ttl::from_secs(2));
    assert!(buffer.add(DirEntry::new(21, 4, vec![b'a', b'a']), 1, sample_attr(21), &opts));
    assert!(buffer.add(DirEntry::new(22, 4, vec![b'b', b'b']), 2, sample_attr(22), &opts));
    assert!(!buffer.add(DirEntry::new(23, 4, vec![b'c', b'c']), 3, sample_attr(23), &opts));
    let outcome = buffer.send().unwrap();
    assert_eq!(outcome.unique, 55);
    match outcome.payload {
        Payload::DirsPlus { entries } => {
            assert_eq!(entries.len(), 2);
            assert_eq!(entries[0].ino, 21);
            assert_eq!(entries[0].entry_ino, 21);
            assert_eq!(entries[0].generation, 3);
            assert_eq!(entries[0].ttl_entry, Some(Ttl { secs: 2, nanos: 0 }));
            assert!(entries[0].ttl_attr.is_none());
            assert_eq!(entries[0].attr.ino, 21);
            assert!(entries[0].offset < entries[1].offset);
        }
        _ => panic!("not an augmented directory payload"),
    }
}

#[test]
fn plus_listing_stops_after_first_refusal() {
    let mut buffer = DirsPlusBuffer::new(ReplyToken::new(56), 320);
    let opts = EntryOptions::default();
    assert!(buffer.add(DirEntry::new(1, 4, vec![b'a'; 2]), 1, sample_attr(1), &opts));
    assert!(!buffer.add(DirEntry::new(2, 4, vec![b'b'; 170]), 2, sample_attr(2), &opts));
    assert!(!buffer.add(DirEntry::new(3, 4, vec![b'c'; 2]), 3, sample_attr(3), &opts));
    let outcome = buffer.send().unwrap();
    match outcome.payload {
        Payload::DirsPlus { entries } => assert_eq!(entries.len(), 1),
        _ => panic!("not an augmented directory payload"),
    }
}

#[test]
fn oversized_name_is_refused_and_closes_the_buffer() {
    let mut buffer = DirsBuffer::new(ReplyToken::new(57), 40);
    assert!(!buffer.add(DirEntry::new(1, 4, vec![b'n'; 64]), 1));
    assert!(!buffer.add(DirEntry::new(2, 4, vec![b'm']), 2));
    let outcome = buffer.send().unwrap();
    match outcome.payload {
        Payload::Dirs { entries } => assert!(entries.is_empty()),
        _ => panic!("not a directory payload"),
    }
}

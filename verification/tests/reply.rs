use polyfuse::error::{error_code, Error, IoFailure};
use polyfuse::options::{EntryOptions, OpenOptions};
use polyfuse::outcome::Payload;
use polyfuse::reply::{
    Replier, ReplyAttr, ReplyBmap, ReplyCreate, ReplyData, ReplyEntry, ReplyLk, ReplyOk,
    ReplyOpen, ReplyPoll, ReplyStatfs, ReplyWrite, ReplyXattr,
};
use polyfuse::token::ReplyToken;
use polyfuse::types::{FileAttr, FsStatistics, Ttl};

fn sample_attr(ino: u64) -> FileAttr {
    FileAttr {
        ino,
        size: 512,
        mode: 0o100644,
        nlink: 1,
        uid: 1000,
        gid: 1000,
        rdev: 0,
        blksize: 4096,
        blocks: 1,
    }
}

#[test]
fn entry_options_default_law() {
    let opts = EntryOptions::default();
    assert_eq!(opts.ino, 0);
    assert!(opts.ttl_attr.is_none());
    assert!(opts.ttl_entry.is_none());
    assert_eq!(opts.generation, 0);
}

#[test]
fn open_options_default_law() {
    let opts = OpenOptions::default();
    assert!(!opts.direct_io);
    assert!(!opts.keep_cache);
    assert!(!opts.nonseekable);
    assert!(!opts.cache_dir);
}

#[test]
fn error_code_wraps_os_code() {
    let e: IoFailure = error_code(2);
    assert_eq!(e.raw_os_error, Some(2));
}

#[test]
fn error_from_io_failure_is_kept() {
    let io = IoFailure::from_raw_os_error(13);
    let e = IoFailure::from_io_error(io);
    assert_eq!(e.raw_os_error, Some(13));
}

#[test]
fn entry_positive_encodes_ino_and_generation() {
    let rep = Replier::new(ReplyToken::new(21));
    let mut opts = EntryOptions::default();
    opts.ino = 42;
    opts.generation = 7;
    let outcome = rep.entry(sample_attr(42), &opts).unwrap();
    assert_eq!(outcome.unique, 21);
    match outcome.payload {
        Payload::Entry { ino, generation, ttl_attr, ttl_entry, attr } => {
            assert_eq!(ino, 42);
            assert_eq!(generation, 7);
            assert!(ttl_attr.is_none());
            assert!(ttl_entry.is_none());
            assert_eq!(attr.ino, 42);
        }
        _ => panic!("not an entry payload"),
    }
}

#[test]
fn entry_negative_cacheable_five_seconds() {
    let rep = Replier::new(ReplyToken::new(22));
    let mut opts = EntryOptions::default();
    opts.ttl_entry = Some(Ttl::from_secs(5));
    let outcome = rep.entry(sample_attr(0), &opts).unwrap();
    match outcome.payload {
        Payload::Entry { ino, generation, ttl_attr, ttl_entry, .. } => {
            assert_eq!(ino, 0);
            assert_eq!(generation, 0);
            assert!(ttl_attr.is_none());
            assert_eq!(ttl_entry, Some(Ttl { secs: 5, nanos: 0 }));
        }
        _ => panic!("not an entry payload"),
    }
}

#[test]
fn attr_reply_carries_attr_and_ttl() {
    let rep = Replier::new(ReplyToken::new(23));
    let outcome = rep.attr(sample_attr(9), Some(Ttl::from_secs(1))).unwrap();
    match outcome.payload {
        Payload::Attr { attr, ttl } => {
            assert_eq!(attr.ino, 9);
            assert_eq!(ttl, Some(Ttl { secs: 1, nanos: 0 }));
        }
        _ => panic!("not an attr payload"),
    }
}

#[test]
fn ok_reply_has_no_payload() {
    let rep = Replier::new(ReplyToken::new(24));
    let outcome = rep.ok().unwrap();
    assert_eq!(outcome.unique, 24);
    assert!(matches!(outcome.payload, Payload::Ack));
}

#[test]
fn data_reply_carries_bytes() {
    let rep = Replier::new(ReplyToken::new(25));
    let outcome = ReplyData::data(rep, vec![1, 2, 3]).unwrap();
    match outcome.payload {
        Payload::Data { data } => assert_eq!(data, vec![1, 2, 3]),
        _ => panic!("not a data payload"),
    }
}

#[test]
fn open_direct_io_sets_only_that_bit() {
    let rep = Replier::new(ReplyToken::new(26));
    let mut opts = OpenOptions::default();
    opts.direct_io = true;
    let outcome = rep.open(3, &opts).unwrap();
    match outcome.payload {
        Payload::Open { fh, flags } => {
            assert_eq!(fh, 3);
            assert_eq!(flags, 1);
        }
        _ => panic!("not an open payload"),
    }
}

#[test]
fn open_flags_one_bit_per_option() {
    let mut opts = OpenOptions::default();
    assert_eq!(opts.flags(), 0);
    opts.keep_cache = true;
    assert_eq!(opts.flags(), 2);
    opts.keep_cache = false;
    opts.nonseekable = true;
    assert_eq!(opts.flags(), 4);
    opts.nonseekable = false;
    opts.cache_dir = true;
    assert_eq!(opts.flags(), 8);
    opts.direct_io = true;
    opts.keep_cache = true;
    opts.nonseekable = true;
    assert_eq!(opts.flags(), 15);
}

#[test]
fn write_reply_reports_short_write() {
    let rep = Replier::new(ReplyToken::new(27));
    let outcome = ReplyWrite::size(rep, 100).unwrap();
    assert!(matches!(outcome.payload, Payload::Write { size: 100 }));
}

#[test]
fn statfs_reply_carries_snapshot() {
    let rep = Replier::new(ReplyToken::new(28));
    let stat = FsStatistics {
        bsize: 4096,
        frsize: 4096,
        blocks: 1000,
        bfree: 600,
        bavail: 500,
        files: 64,
        ffree: 32,
        namelen: 255,
    };
    let outcome = rep.stat(stat).unwrap();
    match outcome.payload {
        Payload::Statfs { stat } => {
            assert_eq!(stat.blocks, 1000);
            assert_eq!(stat.bavail, 500);
        }
        _ => panic!("not a statfs payload"),
    }
}

#[test]
fn xattr_size_query_carries_only_size() {
    let rep = Replier::new(ReplyToken::new(29));
    let outcome = ReplyXattr::size(rep, 128).unwrap();
    match outcome.payload {
        Payload::XattrSize { size } => assert_eq!(size, 128),
        _ => panic!("size query must carry only the size"),
    }
}

#[test]
fn xattr_data_query_carries_only_bytes() {
    let rep = Replier::new(ReplyToken::new(30));
    let outcome = ReplyXattr::data(rep, vec![7, 8]).unwrap();
    match outcome.payload {
        Payload::XattrData { data } => assert_eq!(data, vec![7, 8]),
        _ => panic!("data query must carry only the bytes"),
    }
}

#[test]
fn lk_reply_carries_lock_fields() {
    let rep = Replier::new(ReplyToken::new(31));
    let outcome = rep.lk(1, 10, 20, 999).unwrap();
    match outcome.payload {
        Payload::Lk { typ, start, end, pid } => {
            assert_eq!(typ, 1);
            assert_eq!(start, 10);
            assert_eq!(end, 20);
            assert_eq!(pid, 999);
        }
        _ => panic!("not a lock payload"),
    }
}

#[test]
fn create_combines_entry_and_open() {
    let rep = Replier::new(ReplyToken::new(32));
    let mut entry_opts = EntryOptions::default();
    entry_opts.ino = 5;
    entry_opts.generation = 2;
    let mut open_opts = OpenOptions::default();
    open_opts.keep_cache = true;
    let outcome = rep.create(11, sample_attr(5), &entry_opts, &open_opts).unwrap();
    match outcome.payload {
        Payload::Create { ino, generation, fh, flags, attr, ttl_attr, ttl_entry } => {
            assert_eq!(ino, 5);
            assert_eq!(generation, 2);
            assert_eq!(fh, 11);
            assert_eq!(flags, 2);
            assert_eq!(attr.ino, 5);
            assert!(ttl_attr.is_none());
            assert!(ttl_entry.is_none());
        }
        _ => panic!("not a create payload"),
    }
}

#[test]
fn bmap_reply_carries_block() {
    let rep = Replier::new(ReplyToken::new(33));
    let outcome = rep.block(777).unwrap();
    assert!(matches!(outcome.payload, Payload::Bmap { block: 777 }));
}

#[test]
fn poll_reply_carries_events() {
    let rep = Replier::new(ReplyToken::new(34));
    let outcome = rep.revents(0b101).unwrap();
    assert!(matches!(outcome.payload, Payload::Poll { revents: 5 }));
}

#[test]
fn one_terminal_call_consumes_the_token() {
    // The token moves into the endpoint and the terminal call consumes the
    // endpoint, so a second terminal call against the same token is not
    // expressible; what remains observable is that the one call answers
    // exactly the request the token was made for.
    let token = ReplyToken::new(77);
    assert_eq!(token.unique(), 77);
    let rep = Replier::new(token);
    let outcome = rep.ok().unwrap();
    assert_eq!(outcome.unique, 77);
}

#[test]
fn ttl_from_secs_has_no_nanos() {
    let ttl = Ttl::from_secs(30);
    assert_eq!(ttl.secs, 30);
    assert_eq!(ttl.nanos, 0);
}

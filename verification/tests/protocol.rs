use polyfuse::bytes::{Bytes, FillWriteBytes};
use polyfuse::config::{CapabilityFlags, Config, ALL_CAPABILITIES, DEFAULT_CAPABILITIES};
use polyfuse::connection::ConnectionInfo;
use polyfuse::error::{ErrorKind, SessionError};
use polyfuse::filesystem;
use polyfuse::handshake::{
    init_buffer_len, init_session, negotiate, Handshake, InitResult, InitStep,
};
use polyfuse::host::Host;
use polyfuse::kernel::{
    fuse_in_header, fuse_init_in, fuse_init_out, FUSE_BIG_WRITES, FUSE_INIT,
    FUSE_KERNEL_MINOR_VERSION, FUSE_MAX_PAGES, FUSE_NOTIFY_REPLY, FUSE_NO_OPENDIR_SUPPORT,
    FUSE_NO_OPEN_SUPPORT, FUSE_WRITE, IN_HEADER_SIZE,
};
use polyfuse::reply::{check_written, write_bytes, Reply, WritePlan};
use polyfuse::request::{Data, OperationBody, Received, Request};
use polyfuse::session::{NextRequest, ReadEvent, Session};
use polyfuse::wire::{get_uint, put_uint, to_bits32, to_bits64, ByteOrder};

fn host() -> Host {
    Host {
        order: ByteOrder::Little,
        page_size: 4096,
        eproto: 71,
    }
}

fn frame<T: Bytes>(bytes: &T) -> Vec<u8> {
    let mut buf = Vec::new();
    if let WritePlan::Write(chunks) = write_bytes(bytes) {
        for chunk in chunks {
            buf.extend_from_slice(chunk);
        }
    }
    assert_eq!(bytes.size(), buf.len());
    buf
}

fn header(opcode: u32, unique: u64) -> fuse_in_header {
    fuse_in_header {
        len: 56,
        opcode,
        unique,
        nodeid: 1,
        uid: 1000,
        gid: 100,
        pid: 77,
        padding: 0,
    }
}

fn init_message(opcode: u32, unique: u64, init_in: fuse_init_in) -> Received {
    Received {
        len: 56,
        header: header(opcode, unique).encode(ByteOrder::Little),
        arg: init_in.encode(ByteOrder::Little),
    }
}

fn version(major: u32, minor: u32) -> fuse_init_in {
    fuse_init_in {
        major,
        minor,
        max_readahead: 65536,
        flags: 0,
    }
}

fn open_session() -> Session {
    let mut out = fuse_init_out::default();
    out.max_write = 8192;
    Session::mount(ByteOrder::Little, ConnectionInfo::new(out))
}

fn u32_at(buf: &[u8], at: usize) -> u32 {
    get_uint(buf, ByteOrder::Little, at, 4) as u32
}

#[test]
fn integers_in_both_orders() {
    let mut buf = vec![9];
    put_uint(&mut buf, ByteOrder::Little, 0x0102_0304, 4);
    put_uint(&mut buf, ByteOrder::Big, 0x0102_0304, 4);
    put_uint(&mut buf, ByteOrder::Big, 0xabcd, 2);
    assert_eq!(buf, [9, 4, 3, 2, 1, 1, 2, 3, 4, 0xab, 0xcd]);
    assert_eq!(get_uint(&buf, ByteOrder::Little, 1, 4), 0x0102_0304);
    assert_eq!(get_uint(&buf, ByteOrder::Big, 5, 4), 0x0102_0304);
    assert_eq!(get_uint(&buf, ByteOrder::Big, 9, 2), 0xabcd);
    let mut buf = Vec::new();
    put_uint(&mut buf, ByteOrder::Big, u64::MAX - 1, 8);
    assert_eq!(buf, (u64::MAX - 1).to_be_bytes());
    assert_eq!(get_uint(&buf, ByteOrder::Big, 0, 8), u64::MAX - 1);
}

#[test]
fn two_complement() {
    assert_eq!(to_bits32(-1), u32::MAX);
    assert_eq!(to_bits32(i32::MIN), 0x8000_0000);
    assert_eq!(to_bits32(7), 7);
    assert_eq!(to_bits64(-2), u64::MAX - 1);
    assert_eq!(to_bits64(i64::MAX), 0x7fff_ffff_ffff_ffff);
}

#[test]
fn current_host() {
    let host = Host::current(4096);
    let native = if cfg_little() {
        ByteOrder::Little
    } else {
        ByteOrder::Big
    };
    assert_eq!(host.order, native);
    assert_eq!(host.page_size, 4096);
    assert_eq!(host.eproto, libc::EPROTO);
    assert_eq!(ByteOrder::detect(&[1, 0]), Some(ByteOrder::Little));
    assert_eq!(ByteOrder::detect(&[0, 1]), Some(ByteOrder::Big));
    assert_eq!(ByteOrder::detect(&[1, 1]), None);
    assert_eq!(ByteOrder::detect(&[1]), None);
}

fn cfg_little() -> bool {
    1u16.to_ne_bytes() == 1u16.to_le_bytes()
}

#[test]
fn headers_round_trip() {
    for order in [ByteOrder::Little, ByteOrder::Big] {
        let header = header(FUSE_WRITE, 0x1122_3344_5566_7788);
        assert_eq!(fuse_in_header::decode(order, &header.encode(order)), header);
        let init_in = version(7, 31);
        assert_eq!(fuse_init_in::decode(order, &init_in.encode(order)), init_in);
    }
}

#[test]
fn error_texts() {
    let all = [
        (SessionError::RequestTooShort, ErrorKind::InvalidData, "request message is too short"),
        (
            SessionError::DequeuedTooShort,
            ErrorKind::InvalidData,
            "dequeued request message is too short",
        ),
        (SessionError::UndecodableInit, ErrorKind::Other, "failed to decode fuse_init_in"),
        (
            SessionError::InitAborted,
            ErrorKind::ConnectionRefused,
            "session initialization is aborted",
        ),
        (SessionError::WriteTooShort, ErrorKind::Other, "written data is too short"),
    ];
    for (error, kind, message) in all {
        assert_eq!(error.kind(), kind);
        assert_eq!(error.message(), message);
    }
}

#[test]
fn capability_sets() {
    assert_eq!(CapabilityFlags::all().bits(), ALL_CAPABILITIES);
    assert_eq!(ALL_CAPABILITIES, 0x001d_f45b);
    assert_eq!(CapabilityFlags::default().bits(), DEFAULT_CAPABILITIES);
    assert_eq!(DEFAULT_CAPABILITIES, 0x000c_9009);
    let mut flags = CapabilityFlags::default();
    assert!(flags.contains(CapabilityFlags::async_read()));
    assert!(!flags.contains(CapabilityFlags::posix_acl()));
    flags.insert(CapabilityFlags::posix_acl());
    assert!(flags.contains(CapabilityFlags::posix_acl()));
    flags.remove(CapabilityFlags::async_read());
    assert!(!flags.contains(CapabilityFlags::async_read()));
    assert!(CapabilityFlags::from_bits_truncate(u32::MAX) == CapabilityFlags::all());
    assert!(CapabilityFlags::from_bits_truncate(FUSE_MAX_PAGES) == CapabilityFlags::empty());
    let both = CapabilityFlags::dont_mask().union(CapabilityFlags::flock_locks());
    assert_eq!(both.bits(), 0x440);
    assert!(both.intersection(CapabilityFlags::dont_mask()) == CapabilityFlags::dont_mask());
}

#[test]
fn config_setters() {
    let mut config = Config::default();
    let settings = config.settings();
    assert_eq!(settings.max_readahead, u32::MAX);
    assert_eq!(settings.max_write, 16 * 1024 * 1024);
    assert_eq!(settings.time_gran, 1);
    assert_eq!(settings.max_pages, 0);
    config.max_readahead(5).max_write(6).max_background(12).time_gran(100);
    config.congestion_threshold(7);
    assert_eq!(config.settings().congestion_threshold, 7);
    config.congestion_threshold(0);
    assert_eq!(config.settings().congestion_threshold, 9);
    config.max_background(u16::MAX).congestion_threshold(0);
    assert_eq!(config.settings().congestion_threshold, 49151);
    config.flags().insert(CapabilityFlags::writeback_cache());
    let settings = config.settings();
    assert_eq!(settings.max_readahead, 5);
    assert_eq!(settings.max_write, 6);
    assert_eq!(settings.max_background, u16::MAX);
    assert_eq!(settings.time_gran, 100);
    assert_eq!(settings.flags, DEFAULT_CAPABILITIES | 0x10000);
}

#[test]
fn page_limit() {
    let mut offer = version(7, 31);
    offer.flags = FUSE_MAX_PAGES;
    for (max_write, pages) in [
        (1, 1),
        (4096, 1),
        (4097, 2),
        (65535 * 4096, 65535),
        (u32::MAX, 65535),
    ] {
        let mut config = Config::default();
        config.max_write(max_write);
        let out = negotiate(&config.settings(), 4096, &offer);
        assert_eq!(out.max_pages, pages);
        assert_eq!(out.flags, FUSE_BIG_WRITES | FUSE_MAX_PAGES);
    }
    let out = negotiate(&Config::default().settings(), 4096, &version(7, 31));
    assert_eq!(out.max_pages, 0);
    assert_eq!(out.flags, FUSE_BIG_WRITES);
}

#[test]
fn negotiated_values() {
    let mut config = Config::default();
    config.max_readahead(1000).max_background(8).congestion_threshold(0);
    let mut offer = version(7, 99);
    offer.max_readahead = 2000;
    offer.flags = 0x1 | 0x2 | FUSE_NO_OPEN_SUPPORT;
    let out = negotiate(&config.settings(), 4096, &offer);
    assert_eq!(out.major, 7);
    assert_eq!(out.minor, FUSE_KERNEL_MINOR_VERSION);
    assert_eq!(out.max_readahead, 1000);
    assert_eq!(out.flags, 0x1 | FUSE_BIG_WRITES);
    assert_eq!(out.max_background, 8);
    assert_eq!(out.congestion_threshold, 6);
    offer.max_readahead = 500;
    offer.minor = 24;
    let out = negotiate(&config.settings(), 4096, &offer);
    assert_eq!(out.max_readahead, 500);
    assert_eq!(out.minor, 24);
}

#[test]
fn handshake_after_refusals() {
    let mut offer = version(7, 28);
    offer.flags = FUSE_NO_OPENDIR_SUPPORT;
    let messages = vec![
        init_message(FUSE_WRITE, 1, version(7, 31)),
        init_message(FUSE_INIT, 2, version(8, 0)),
        init_message(FUSE_INIT, 3, version(7, 22)),
        init_message(FUSE_INIT, 4, version(6, 50)),
        init_message(FUSE_INIT, 5, offer),
        init_message(FUSE_INIT, 6, version(7, 31)),
    ];
    let (replies, result) = init_session(host(), Config::default(), &messages);
    let frames: Vec<Vec<u8>> = replies.iter().map(frame).collect();
    assert_eq!(frames.len(), 5);
    assert_eq!(frames[0], [16, 0, 0, 0, 0xfb, 255, 255, 255, 1, 0, 0, 0, 0, 0, 0, 0]);
    assert_eq!(frames[1].len(), 80);
    assert_eq!(u32_at(&frames[1], 4), 0);
    assert_eq!(u32_at(&frames[1], 8), 2);
    assert_eq!(u32_at(&frames[1], 16), 7);
    assert_eq!(u32_at(&frames[1], 20), FUSE_KERNEL_MINOR_VERSION);
    assert!(frames[1][24..].iter().all(|&b| b == 0));
    assert_eq!(frames[2], [16, 0, 0, 0, 0xb9, 255, 255, 255, 3, 0, 0, 0, 0, 0, 0, 0]);
    assert_eq!(u32_at(&frames[3], 4), (-71i32) as u32);
    assert_eq!(u32_at(&frames[4], 8), 5);
    assert_eq!(u32_at(&frames[4], 20), 28);
    match result {
        InitResult::Established(info) => {
            assert_eq!(info.proto_minor(), 28);
            assert!(info.no_opendir_support());
            assert!(!info.no_open_support());
            assert_eq!(info.max_pages(), None);
            assert!(info.flags() == CapabilityFlags::empty());
            assert_eq!(info.bufsize(), 0x1000 + 16 * 1024 * 1024);
        }
        _ => panic!("the session is not open"),
    }
}

#[test]
fn handshake_gives_up() {
    let mut messages = Vec::new();
    for unique in 0..11 {
        messages.push(init_message(FUSE_WRITE, unique, version(7, 31)));
    }
    let (replies, result) = init_session(host(), Config::default(), &messages);
    assert_eq!(replies.len(), 10);
    assert!(matches!(result, InitResult::Failed(SessionError::InitAborted)));
    messages.truncate(9);
    let (replies, result) = init_session(host(), Config::default(), &messages);
    assert_eq!(replies.len(), 9);
    assert!(matches!(result, InitResult::Pending));
}

#[test]
fn handshake_ignores_what_follows_its_end() {
    let mut config = Config::default();
    config.max_write(0);
    let mut offer = version(7, 31);
    offer.flags = FUSE_MAX_PAGES;
    let mut broken = init_message(FUSE_INIT, 2, offer);
    broken.header.clear();
    let messages = vec![
        init_message(FUSE_INIT, 1, version(7, 31)),
        init_message(FUSE_INIT, 2, offer),
        broken,
    ];
    let (replies, result) = init_session(host(), config, &messages);
    assert_eq!(replies.len(), 1);
    assert!(matches!(result, InitResult::Established(_)));
}

#[test]
fn handshake_fails() {
    let mut short = init_message(FUSE_INIT, 1, version(7, 31));
    short.len = IN_HEADER_SIZE - 1;
    let (replies, result) = init_session(host(), Config::default(), &vec![short]);
    assert!(replies.is_empty());
    assert!(matches!(result, InitResult::Failed(SessionError::RequestTooShort)));
    let mut cut = init_message(FUSE_INIT, 1, version(7, 31));
    cut.arg.truncate(15);
    cut.len = 55;
    let (replies, result) = init_session(host(), Config::default(), &vec![cut]);
    assert!(replies.is_empty());
    assert!(matches!(result, InitResult::Failed(SessionError::UndecodableInit)));
}

#[test]
fn handshake_step_by_step() {
    let mut config = Config::default();
    config.max_write(0);
    let mut handshake = Handshake::new(host(), config);
    let mut offer = version(7, 31);
    assert!(handshake.is_countable(&init_message(FUSE_INIT, 1, offer)));
    offer.flags = FUSE_MAX_PAGES;
    assert!(!handshake.is_countable(&init_message(FUSE_INIT, 1, offer)));
    assert!(handshake.is_countable(&init_message(FUSE_WRITE, 1, offer)));
    assert_eq!(handshake.awaits(), Ok(()));
    for unique in 0..10 {
        let step = handshake.step(&init_message(FUSE_WRITE, unique, offer));
        assert!(matches!(step, InitStep::Again(_)));
    }
    assert_eq!(handshake.awaits(), Err(SessionError::InitAborted));
    assert_eq!(init_buffer_len(4096), 1048576);
}

#[test]
fn eio_is_the_number_of_the_c_library() {
    let messages = vec![init_message(FUSE_WRITE, 1, version(7, 31))];
    let (replies, _) = init_session(host(), Config::default(), &messages);
    assert_eq!(u32_at(&frame(&replies[0]), 4), (-libc::EIO) as u32);
}

#[test]
fn chunks_of_data() {
    assert_eq!(().count(), 0);
    assert_eq!(().size(), 0);
    assert!(matches!(write_bytes(&()), WritePlan::Skip));
    let data = vec![1u8, 2, 3];
    assert_eq!((data.count(), data.size()), (1, 3));
    let some: Option<&[u8]> = Some(&data);
    assert_eq!((some.count(), some.size()), (1, 3));
    let none: Option<&[u8]> = None;
    assert_eq!((none.count(), none.size()), (0, 0));
    let six: [&[u8]; 6] = [b"a", b"", b"bc", b"d", b"ef", b"g"];
    let all: &[&[u8]] = &six;
    assert_eq!((all.count(), all.size()), (6, 7));
    assert_eq!(frame(&all), b"abcdefg");
    assert_eq!("h\u{e9}".size(), 3);
    let mut list = FillWriteBytes::new();
    list.put(b"x");
    data.fill_bytes(&mut list);
    assert_eq!(list.into_vec(), [&b"x"[..], &[1, 2, 3][..]]);
}

#[test]
fn short_write_is_an_error() {
    let reply = Reply::new(ByteOrder::Big, 1, 0, "hello");
    assert_eq!(check_written(&reply, 20), Err(SessionError::WriteTooShort));
    assert_eq!(check_written(&reply, 21), Ok(()));
    assert_eq!(frame(&reply)[..16], [0, 0, 0, 21, 0, 0, 0, 0, 0, 0, 0, 0, 0, 0, 0, 1]);
}

#[test]
fn requests_from_reads() {
    let session = open_session();
    assert_eq!(session.arg_buffer_len(), 0x1000 + 8192 - 40);
    assert_eq!(session.connection_info().max_write(), 8192);
    let read = |len| {
        ReadEvent::Received(Received {
            len,
            header: header(FUSE_WRITE, 42).encode(ByteOrder::Little),
            arg: vec![5; 100],
        })
    };
    assert!(matches!(
        session.next_request(read(39)),
        NextRequest::Invalid(SessionError::DequeuedTooShort)
    ));
    match session.next_request(read(90)) {
        NextRequest::Request(request) => {
            assert_eq!(request.unique(), 42);
            assert_eq!(request.uid(), 1000);
            assert_eq!(request.gid(), 100);
            assert_eq!(request.pid(), 77);
            assert_eq!(*request.header(), header(FUSE_WRITE, 42));
            assert_eq!(filesystem::Request::unique(&request), 42);
            assert_eq!(filesystem::Request::uid(&request), 1000);
            assert_eq!(filesystem::Request::gid(&request), 100);
            assert_eq!(filesystem::Request::pid(&request), 77);
            match request.operation(false) {
                OperationBody::Encoded(arg, data) => {
                    assert_eq!(arg.len(), 40);
                    assert_eq!(data.fill_buf().len(), 10);
                }
                OperationBody::Unknown => panic!("the session is open"),
            }
        }
        _ => panic!("there is no request"),
    }
}

#[test]
fn failed_reads() {
    let session = open_session();
    let failed = |code| session.next_request(ReadEvent::Failed(code));
    assert!(matches!(failed(Some(libc::ENODEV)), NextRequest::Closed));
    assert!(matches!(failed(Some(libc::ENOENT)), NextRequest::Retry));
    assert!(matches!(failed(Some(libc::EIO)), NextRequest::Failed));
    assert!(matches!(failed(None), NextRequest::Failed));
}

#[test]
fn operations_are_divided() {
    let bytes: Vec<u8> = (0..50).collect();
    for (opcode, at) in [(FUSE_WRITE, 40), (FUSE_NOTIFY_REPLY, 40), (15, 50)] {
        let request = Request::new(ByteOrder::Little, header(opcode, 1), bytes.clone());
        assert!(request.is_divisible());
        match request.operation(false) {
            OperationBody::Encoded(arg, data) => {
                assert_eq!(*arg, bytes[..at]);
                assert_eq!(*data.fill_buf(), bytes[at..]);
            }
            OperationBody::Unknown => panic!("the session is open"),
        }
        assert!(matches!(request.operation(true), OperationBody::Unknown));
    }
    let short = Request::new(ByteOrder::Little, header(FUSE_WRITE, 1), vec![0; 39]);
    assert!(!short.is_divisible());
    let other = Request::new(ByteOrder::Little, header(15, 1), Vec::new());
    assert!(other.is_divisible());
}

#[test]
fn replies_name_their_request() {
    let request = Request::new(ByteOrder::Little, header(15, 0x0102), Vec::new());
    assert_eq!(
        frame(&request.reply("ok")),
        [18, 0, 0, 0, 0, 0, 0, 0, 2, 1, 0, 0, 0, 0, 0, 0, b'o', b'k']
    );
    assert_eq!(
        frame(&request.reply_error(2)),
        [16, 0, 0, 0, 0xfe, 255, 255, 255, 2, 1, 0, 0, 0, 0, 0, 0]
    );
}

#[test]
fn data_is_read_once() {
    let source = [1u8, 2, 3, 4, 5, 6];
    let mut data = Data::new(&source);
    let mut buf = [0u8; 2];
    assert_eq!(data.read(&mut buf), 2);
    assert_eq!(buf, [1, 2]);
    data.consume(1);
    assert_eq!(data.fill_buf(), [4, 5, 6]);
    let mut bufs = vec![vec![9], vec![], vec![9, 9, 9]];
    assert_eq!(data.read_vectored(&mut bufs), 3);
    assert_eq!(bufs, [vec![4], vec![], vec![5, 6, 9]]);
    assert_eq!(data.read(&mut buf), 0);
    assert_eq!(buf, [1, 2]);
}

#[test]
fn session_end_and_identifiers() {
    let mut session = open_session();
    let notifier = session.notifier();
    assert!(!session.exited());
    let (first, _) = notifier.retrieve(&mut session, 1, 2, 3);
    let (second, message) = notifier.retrieve(&mut session, 7, 8, 9);
    assert_eq!((first, second), (0, 1));
    let sent = frame(&message);
    assert_eq!(sent.len(), 48);
    assert_eq!(u32_at(&sent, 0), 48);
    assert_eq!(u32_at(&sent, 4), 5);
    assert_eq!(
        sent[16..],
        [1, 0, 0, 0, 0, 0, 0, 0, 7, 0, 0, 0, 0, 0, 0, 0, 8, 0, 0, 0, 0, 0, 0, 0, 9, 0, 0, 0, 0, 0, 0, 0]
    );
    session.exit();
    assert!(session.exited());
    assert_eq!(session.take_notify_unique(), 2);
}

#[test]
fn notification_frames() {
    let notifier = open_session().notifier();
    let sent = frame(&notifier.inval_inode(3, -1, 4));
    assert_eq!(
        sent,
        [
            40, 0, 0, 0, 2, 0, 0, 0, 0, 0, 0, 0, 0, 0, 0, 0, //
            3, 0, 0, 0, 0, 0, 0, 0, 255, 255, 255, 255, 255, 255, 255, 255, //
            4, 0, 0, 0, 0, 0, 0, 0,
        ]
    );
    let sent = frame(&notifier.inval_entry(1, b"foo"));
    assert_eq!(
        sent,
        [
            36, 0, 0, 0, 3, 0, 0, 0, 0, 0, 0, 0, 0, 0, 0, 0, //
            1, 0, 0, 0, 0, 0, 0, 0, 3, 0, 0, 0, 0, 0, 0, 0, //
            b'f', b'o', b'o', 0,
        ]
    );
    assert_eq!(notifier.inval_entry(1, b"foo").count(), 4);
    let sent = frame(&notifier.delete(1, 2, b"ab"));
    assert_eq!(
        sent,
        [
            43, 0, 0, 0, 6, 0, 0, 0, 0, 0, 0, 0, 0, 0, 0, 0, //
            1, 0, 0, 0, 0, 0, 0, 0, 2, 0, 0, 0, 0, 0, 0, 0, 2, 0, 0, 0, 0, 0, 0, 0, //
            b'a', b'b', 0,
        ]
    );
    let sent = frame(&notifier.store(4, 5, "xyz"));
    assert_eq!(
        sent,
        [
            43, 0, 0, 0, 4, 0, 0, 0, 0, 0, 0, 0, 0, 0, 0, 0, //
            4, 0, 0, 0, 0, 0, 0, 0, 5, 0, 0, 0, 0, 0, 0, 0, 3, 0, 0, 0, 0, 0, 0, 0, //
            b'x', b'y', b'z',
        ]
    );
    let sent = frame(&notifier.poll_wakeup(6));
    assert_eq!(
        sent,
        [24, 0, 0, 0, 1, 0, 0, 0, 0, 0, 0, 0, 0, 0, 0, 0, 6, 0, 0, 0, 0, 0, 0, 0]
    );
}

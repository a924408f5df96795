use polyfuse::bytes::Bytes;
use polyfuse::config::{CapabilityFlags, Config, DEFAULT_MAX_WRITE};
use polyfuse::connection::ConnectionInfo;
use polyfuse::handshake::{init_buffer_len, init_session, InitResult};
use polyfuse::host::Host;
use polyfuse::kernel::{
    fuse_in_header, fuse_init_in, fuse_init_out, fuse_out_header, FUSE_BIG_WRITES, FUSE_INIT,
    FUSE_MAX_PAGES, FUSE_NO_OPENDIR_SUPPORT, FUSE_NO_OPEN_SUPPORT, INIT_IN_SIZE, INIT_OUT_SIZE,
    IN_HEADER_SIZE, OUT_HEADER_SIZE,
};
use polyfuse::reply::{check_written, write_bytes, Reply, WritePlan};
use polyfuse::request::Received;
use polyfuse::wire::ByteOrder;

const PAGE_SIZE: usize = 4096;

fn frame<T: Bytes>(bytes: &T) -> Vec<u8> {
    let mut buf = Vec::new();
    if let WritePlan::Write(chunks) = write_bytes(bytes) {
        for chunk in chunks {
            buf.extend_from_slice(chunk);
        }
    }
    check_written(bytes, buf.len()).unwrap();
    buf
}

fn received(message: &[u8]) -> Received {
    let mut header = message.to_vec();
    let mut arg = if header.len() > IN_HEADER_SIZE {
        header.split_off(IN_HEADER_SIZE)
    } else {
        Vec::new()
    };
    header.resize(IN_HEADER_SIZE, 0);
    arg.resize(init_buffer_len(PAGE_SIZE), 0);
    Received {
        len: message.len(),
        header,
        arg,
    }
}

#[test]
fn init_default() {
    let host = Host::current(PAGE_SIZE as u32);
    let input_len = IN_HEADER_SIZE + INIT_IN_SIZE;
    let in_header = fuse_in_header {
        len: input_len as u32,
        opcode: FUSE_INIT,
        unique: 2,
        nodeid: 0,
        uid: 100,
        gid: 100,
        pid: 12,
        padding: 0,
    };
    let init_in = fuse_init_in {
        major: 7,
        minor: 23,
        max_readahead: 40,
        flags: CapabilityFlags::all().bits()
            | FUSE_MAX_PAGES
            | FUSE_NO_OPEN_SUPPORT
            | FUSE_NO_OPENDIR_SUPPORT,
    };

    let mut input = Vec::with_capacity(input_len);
    input.extend_from_slice(&in_header.encode(host.order));
    input.extend_from_slice(&init_in.encode(host.order));
    assert_eq!(input.len(), input_len);

    let (replies, result) = init_session(host, Config::default(), &vec![received(&input)]);
    let conn_info: ConnectionInfo = match result {
        InitResult::Established(conn_info) => conn_info,
        _ => panic!("initialization failed"),
    };
    assert_eq!(replies.len(), 1);
    let output = frame(&replies[0]);

    let expected_max_pages = (DEFAULT_MAX_WRITE / (PAGE_SIZE as u32)) as u16;
    assert_eq!(conn_info.proto_major(), 7);
    assert_eq!(conn_info.proto_minor(), 23);
    assert_eq!(conn_info.max_readahead(), 40);
    assert_eq!(conn_info.max_background(), 0);
    assert_eq!(conn_info.congestion_threshold(), 0);
    assert_eq!(conn_info.max_write(), DEFAULT_MAX_WRITE);
    assert_eq!(conn_info.max_pages(), Some(expected_max_pages));
    assert_eq!(conn_info.time_gran(), 1);
    assert!(conn_info.no_open_support());
    assert!(conn_info.no_opendir_support());

    let output_len = OUT_HEADER_SIZE + INIT_OUT_SIZE;
    let out_header = fuse_out_header {
        len: output_len as u32,
        error: 0,
        unique: 2,
    };
    let init_out = fuse_init_out {
        major: 7,
        minor: 23,
        max_readahead: 40,
        flags: CapabilityFlags::default().bits() | FUSE_MAX_PAGES | FUSE_BIG_WRITES,
        max_background: 0,
        congestion_threshold: 0,
        max_write: DEFAULT_MAX_WRITE,
        time_gran: 1,
        max_pages: expected_max_pages,
        padding: 0,
        unused: [0; 8],
    };

    let mut expected = Vec::with_capacity(output_len);
    expected.extend_from_slice(&out_header.encode(host.order));
    expected.extend_from_slice(&init_out.encode(host.order));
    assert_eq!(output.len(), output_len);

    assert_eq!(expected[0..4], output[0..4], "out_header.len");
    assert_eq!(expected[4..8], output[4..8], "out_header.error");
    assert_eq!(expected[8..16], output[8..16], "out_header.unique");

    let expected = &expected[OUT_HEADER_SIZE..];
    let output = &output[OUT_HEADER_SIZE..];
    assert_eq!(expected[0..4], output[0..4], "init_out.major");
    assert_eq!(expected[4..8], output[4..8], "init_out.minor");
    assert_eq!(expected[8..12], output[8..12], "init_out.max_readahead");
    assert_eq!(expected[12..16], output[12..16], "init_out.flags");
    assert_eq!(expected[16..18], output[16..18], "init_out.max_background");
    assert_eq!(
        expected[18..20],
        output[18..20],
        "init_out.congestion_threshold"
    );
    assert_eq!(expected[20..24], output[20..24], "init_out.max_write");
    assert_eq!(expected[24..28], output[24..28], "init_out.time_gran");
    assert_eq!(expected[28..30], output[28..30], "init_out.max_pages");
    assert!(
        output[30..30 + 2 + 4 * 8].iter().all(|&b| b == 0x00),
        "init_out.paddings"
    );
}

#[test]
fn send_msg_empty() {
    let buf = frame(&Reply::new(ByteOrder::Little, 42, -4, &[]));
    assert_eq!(buf[0..4], [0x10, 0x00, 0x00, 0x00], "header.len");
    assert_eq!(buf[4..8], [0x04, 0x00, 0x00, 0x00], "header.error");
    assert_eq!(
        buf[8..16],
        [0x2a, 0x00, 0x00, 0x00, 0x00, 0x00, 0x00, 0x00],
        "header.unique"
    );
}

#[test]
fn send_msg_single_data() {
    let buf = frame(&Reply::new(ByteOrder::Little, 42, 0, "hello"));
    assert_eq!(buf[0..4], [0x15, 0x00, 0x00, 0x00], "header.len");
    assert_eq!(buf[4..8], [0x00, 0x00, 0x00, 0x00], "header.error");
    assert_eq!(
        buf[8..16],
        [0x2a, 0x00, 0x00, 0x00, 0x00, 0x00, 0x00, 0x00],
        "header.unique"
    );
    assert_eq!(buf[16..], [0x68, 0x65, 0x6c, 0x6c, 0x6f], "payload");
}

#[test]
fn send_msg_chunked_data() {
    let payload: &[&[u8]] = &[
        "hello, ".as_ref(), //
        "this ".as_ref(),
        "is a ".as_ref(),
        "message.".as_ref(),
    ];
    let buf = frame(&Reply::new(ByteOrder::Little, 26, 0, payload));
    assert_eq!(buf[0..4], [0x29, 0x00, 0x00, 0x00], "header.len");
    assert_eq!(buf[4..8], [0x00, 0x00, 0x00, 0x00], "header.error");
    assert_eq!(
        buf[8..16],
        [0x1a, 0x00, 0x00, 0x00, 0x00, 0x00, 0x00, 0x00],
        "header.unique"
    );
    assert_eq!(buf[16..], *b"hello, this is a message.", "payload");
}

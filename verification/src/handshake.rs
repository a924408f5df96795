//! The handshake that opens a session.

use crate::config::{CapabilityFlags, Config, Settings};
use crate::connection::ConnectionInfo;
use crate::error::SessionError;
use crate::host::{eio, Host};
use crate::kernel::{
    fuse_in_header, fuse_init_in, fuse_init_out, FUSE_BIG_WRITES, FUSE_INIT,
    FUSE_KERNEL_MINOR_VERSION, FUSE_KERNEL_VERSION, FUSE_MAX_PAGES, IN_HEADER_SIZE, INIT_IN_SIZE,
};
use crate::reply::Reply;
use crate::request::Received;
use vstd::prelude::*;
#[allow(unused_imports)]
use crate::bytes::{concat, lemma_one, Bytes};
#[allow(unused_imports)]
use crate::config::{law_capability_bits, ALL_CAPABILITIES};
#[allow(unused_imports)]
use crate::connection::BUFFER_HEADER_SIZE;
#[allow(unused_imports)]
use crate::kernel::{
    fuse_out_header, law_fuse_in_header_layout, law_fuse_init_in_layout, law_fuse_init_out_layout,
    FUSE_NO_OPENDIR_SUPPORT, FUSE_NO_OPEN_SUPPORT, WRITE_IN_SIZE,
};
#[allow(unused_imports)]
use crate::reply::{law_reply_frame, law_reply_on_the_wire, reply_header};
#[allow(unused_imports)]
use crate::request::Message;
#[allow(unused_imports)]
use crate::wire::ByteOrder;

verus! {

/// The oldest minor version of the protocol that this library speaks.
pub const MINIMUM_SUPPORTED_MINOR_VERSION: u32 = 23;

/// The number of requests that a handshake answers before it gives up.
pub const MAX_ATTEMPTS: u32 = 10;

/// The number of pages that the argument of a request of the handshake may fill.
pub const MAX_MAX_PAGES: usize = 256;

/// What a message of the handshake asks for.
pub enum Verdict {
    /// The message has no complete header.
    TooShort,
    /// The message is not an INIT request.
    Foreign,
    /// The message is an INIT request without a complete argument.
    Undecodable,
    /// The kernel offers a newer major version.
    TooNew,
    /// The kernel offers a version that is not supported any more.
    TooOld,
    /// The kernel offers a version that is supported.
    Supported(fuse_init_in),
}

/// What the message asks for.
pub open spec fn verdict(order: ByteOrder, message: Message) -> Verdict {
    if message.len < IN_HEADER_SIZE {
        Verdict::TooShort
    } else if fuse_in_header::spec_decode(order, message.header).opcode != FUSE_INIT {
        Verdict::Foreign
    } else if message.arg.len() < INIT_IN_SIZE {
        Verdict::Undecodable
    } else {
        let init_in = fuse_init_in::spec_decode(order, message.arg);
        if init_in.major > FUSE_KERNEL_VERSION {
            Verdict::TooNew
        } else if init_in.major < FUSE_KERNEL_VERSION || init_in.minor
            < MINIMUM_SUPPORTED_MINOR_VERSION {
            Verdict::TooOld
        } else {
            Verdict::Supported(init_in)
        }
    }
}

/// Whether the kernel lets the reply limit the number of pages in a request.
pub open spec fn offers_max_pages(init_in: fuse_init_in) -> bool {
    init_in.flags & FUSE_MAX_PAGES != 0
}

/// The number of pages that hold `size` bytes.
pub open spec fn pages(size: nat, page_size: nat) -> nat {
    (size + page_size - 1) as nat / page_size
}

/// Reserved words.
pub open spec fn zeros() -> [u32; 8] {
    [0u32, 0, 0, 0, 0, 0, 0, 0]
}

/// The values that are offered to a kernel with a newer major version.
pub open spec fn own_version() -> fuse_init_out {
    fuse_init_out {
        major: FUSE_KERNEL_VERSION,
        minor: FUSE_KERNEL_MINOR_VERSION,
        max_readahead: 0,
        flags: 0,
        max_background: 0,
        congestion_threshold: 0,
        max_write: 0,
        time_gran: 0,
        max_pages: 0,
        padding: 0,
        unused: zeros(),
    }
}

/// The values that answer a supported INIT request: of what the kernel offers, what the settings
/// ask for.
pub open spec fn negotiated(
    settings: Settings,
    page_size: u32,
    init_in: fuse_init_in,
) -> fuse_init_out {
    let granted = settings.flags & (init_in.flags & ALL_CAPABILITIES);
    fuse_init_out {
        major: FUSE_KERNEL_VERSION,
        minor: if init_in.minor < FUSE_KERNEL_MINOR_VERSION {
            init_in.minor
        } else {
            FUSE_KERNEL_MINOR_VERSION
        },
        max_readahead: if settings.max_readahead < init_in.max_readahead {
            settings.max_readahead
        } else {
            init_in.max_readahead
        },
        flags: if offers_max_pages(init_in) {
            granted | FUSE_BIG_WRITES | FUSE_MAX_PAGES
        } else {
            granted | FUSE_BIG_WRITES
        },
        max_background: settings.max_background,
        congestion_threshold: settings.congestion_threshold,
        max_write: settings.max_write,
        time_gran: settings.time_gran,
        max_pages: if !offers_max_pages(init_in) {
            0
        } else if pages(settings.max_write as nat, page_size as nat) < u16::MAX {
            pages(settings.max_write as nat, page_size as nat) as u16
        } else {
            u16::MAX
        },
        padding: 0,
        unused: zeros(),
    }
}

/// The values of the connection: those of the reply, and the flags by which the kernel tells what
/// it can do.
pub open spec fn established(
    settings: Settings,
    page_size: u32,
    init_in: fuse_init_in,
) -> fuse_init_out {
    let out = negotiated(settings, page_size, init_in);
    fuse_init_out { flags: out.flags | (init_in.flags & !ALL_CAPABILITIES), ..out }
}

/// What is to be done about a message of the handshake.
pub enum InitStep {
    /// The handshake fails, without an answer.
    Fail(SessionError),
    /// The answer is sent, and another message is awaited.
    Again(Reply<Option<Vec<u8>>>),
    /// The answer is sent, and the session is open.
    Done(Reply<Option<Vec<u8>>>, ConnectionInfo),
}

/// `reply` reports the error `code` to the request `unique`.
pub open spec fn is_error_reply(
    reply: Reply<Option<Vec<u8>>>,
    order: ByteOrder,
    unique: u64,
    code: i32,
) -> bool {
    &&& reply.wf()
    &&& reply.order() == order
    &&& reply.header() == reply_header(unique, code, 0)
    &&& reply.arg() is None
}

/// `reply` answers the request `unique` with the values `out`.
pub open spec fn is_init_reply(
    reply: Reply<Option<Vec<u8>>>,
    order: ByteOrder,
    unique: u64,
    out: fuse_init_out,
) -> bool {
    &&& reply.wf()
    &&& reply.order() == order
    &&& reply.header() == reply_header(unique, 0, 64)
    &&& reply.arg() is Some
    &&& reply.arg().unwrap()@ == out.spec_bytes(order)
}

/// Whether the pages of a write request can be counted: where the kernel asks for their number, a
/// write request is not empty.
pub open spec fn countable(order: ByteOrder, settings: Settings, message: Message) -> bool {
    verdict(order, message) matches Verdict::Supported(init_in) ==> offers_max_pages(init_in)
        ==> settings.max_write > 0
}

/// The number of the error that answers a request before the session is open.
pub open spec fn eio_code() -> i32 {
    5
}

/// `reply` is the answer to the message, which is one that has an answer.
pub open spec fn answers(
    reply: Reply<Option<Vec<u8>>>,
    host: Host,
    settings: Settings,
    message: Message,
) -> bool {
    let unique = fuse_in_header::spec_decode(host.order, message.header).unique;
    match verdict(host.order, message) {
        Verdict::TooShort | Verdict::Undecodable => false,
        Verdict::Foreign => is_error_reply(reply, host.order, unique, eio_code()),
        Verdict::TooNew => is_init_reply(reply, host.order, unique, own_version()),
        Verdict::TooOld => is_error_reply(reply, host.order, unique, host.eproto),
        Verdict::Supported(init_in) => is_init_reply(
            reply,
            host.order,
            unique,
            negotiated(settings, host.page_size, init_in),
        ),
    }
}

/// How a handshake ends.
pub enum Outcome {
    /// It waits for another message.
    Pending,
    /// The session is open, with what this request offers.
    Established(fuse_init_in),
    /// There is no session.
    Failed(SessionError),
}

/// How a message ends the handshake, if it does.
pub open spec fn ending(verdict: Verdict) -> Option<Outcome> {
    match verdict {
        Verdict::TooShort => Some(Outcome::Failed(SessionError::RequestTooShort)),
        Verdict::Undecodable => Some(Outcome::Failed(SessionError::UndecodableInit)),
        Verdict::Supported(init_in) => Some(Outcome::Established(init_in)),
        Verdict::Foreign | Verdict::TooNew | Verdict::TooOld => None,
    }
}

/// A handshake under way.
pub struct Handshake {
    host: Host,
    config: Config,
    attempts: u32,
}

/// The size of the buffer for what follows the header of a message of the handshake.
pub fn init_buffer_len(page_size: usize) -> (len: usize)
    requires
        page_size * MAX_MAX_PAGES <= usize::MAX,
    ensures
        len == page_size * MAX_MAX_PAGES,
        len == page_size * 256,
{
    page_size * MAX_MAX_PAGES
}

fn init_reply(host: Host, unique: u64, out: &fuse_init_out) -> (reply: Reply<Option<Vec<u8>>>)
    ensures
        is_init_reply(reply, host.order, unique, *out),
{
    let payload: Vec<u8> = out.encode(host.order);
    proof {
        lemma_one(payload@);
    }
    Reply::new(host.order, unique, 0, Some(payload))
}

fn error_reply(host: Host, unique: u64, code: i32) -> (reply: Reply<Option<Vec<u8>>>)
    requires
        code != i32::MIN,
    ensures
        is_error_reply(reply, host.order, unique, code),
{
    Reply::new(host.order, unique, code, None)
}

/// Answers a supported INIT request: of what the kernel offers, grants what the settings ask for.
pub fn negotiate(settings: &Settings, page_size: u32, init_in: &fuse_init_in) -> (out:
    fuse_init_out)
    requires
        page_size > 0,
        offers_max_pages(*init_in) ==> settings.max_write > 0,
    ensures
        out == negotiated(*settings, page_size, *init_in),
{
    let capable = CapabilityFlags::from_bits_truncate(init_in.flags);
    let mut out: fuse_init_out = Default::default();
    assert(out.unused =~= zeros());
    out.major = FUSE_KERNEL_VERSION;
    out.minor = if init_in.minor < FUSE_KERNEL_MINOR_VERSION {
        init_in.minor
    } else {
        FUSE_KERNEL_MINOR_VERSION
    };
    out.flags = settings.flags & capable.bits();
    // The flag was superseded by `max_write`.
    out.flags = out.flags | FUSE_BIG_WRITES;
    out.max_readahead = if settings.max_readahead < init_in.max_readahead {
        settings.max_readahead
    } else {
        init_in.max_readahead
    };
    out.max_write = settings.max_write;
    out.max_background = settings.max_background;
    out.congestion_threshold = settings.congestion_threshold;
    out.time_gran = settings.time_gran;
    if init_in.flags & FUSE_MAX_PAGES != 0 {
        out.flags = out.flags | FUSE_MAX_PAGES;
        proof {
            lemma_pages(settings.max_write as int, page_size as int);
        }
        let count: u32 = (out.max_write - 1) / page_size + 1;
        out.max_pages = if count < u16::MAX as u32 {
            count as u16
        } else {
            u16::MAX
        };
    }
    out
}

proof fn lemma_pages(size: int, page_size: int)
    requires
        size > 0,
        page_size > 0,
    ensures
        (size + page_size - 1) / page_size == (size - 1) / page_size + 1,
        (size - 1) / page_size < size,
        (size - 1) / page_size >= 0,
{
    vstd::arithmetic::div_mod::lemma_div_plus_one(size - 1, page_size);
    vstd::arithmetic::div_mod::lemma_div_is_ordered_by_denominator(size - 1, 1, page_size);
    vstd::arithmetic::div_mod::lemma_div_pos_is_pos(size - 1, page_size);
}

impl Handshake {
    /// The machine that the handshake runs on.
    pub closed spec fn host(&self) -> Host {
        self.host
    }

    /// The settings of the session.
    pub closed spec fn settings(&self) -> Settings {
        self.config@
    }

    /// The number of messages that may still be answered.
    pub closed spec fn attempts(&self) -> u32 {
        self.attempts
    }

    /// The largest request fits in memory.
    pub open spec fn wf(&self) -> bool {
        &&& self.host().wf()
        &&& BUFFER_HEADER_SIZE + self.settings().max_write <= usize::MAX
    }

    /// A handshake that has not seen a message.
    pub fn new(host: Host, config: Config) -> (handshake: Self)
        requires
            host.wf(),
            BUFFER_HEADER_SIZE + config@.max_write <= usize::MAX,
        ensures
            handshake.wf(),
            handshake.host() == host,
            handshake.settings() == config@,
            handshake.attempts() == MAX_ATTEMPTS,
            handshake.attempts() == 10,
    {
        Handshake { host, config, attempts: MAX_ATTEMPTS }
    }

    /// Whether another message is awaited; if not, the handshake has failed.
    pub fn awaits(&self) -> (result: Result<(), SessionError>)
        ensures
            result == if self.attempts() > 0 {
                Ok::<(), SessionError>(())
            } else {
                Err(SessionError::InitAborted)
            },
    {
        if self.attempts > 0 {
            Ok(())
        } else {
            Err(SessionError::InitAborted)
        }
    }

    /// Whether the number of pages in a write request can be told, if the message asks for it.
    pub fn is_countable(&self, message: &Received) -> (yes: bool)
        requires
            message.wf(),
        ensures
            yes <==> countable(self.host().order, self.settings(), message@),
    {
        if self.config.settings().max_write > 0 || message.len < IN_HEADER_SIZE
            || message.arg.len() < INIT_IN_SIZE {
            return true;
        }
        let opcode: u32 = fuse_in_header::decode(
            self.host.order,
            message.header.as_slice(),
        ).opcode;
        let init_in = fuse_init_in::decode(self.host.order, message.arg.as_slice());
        opcode != FUSE_INIT || init_in.major != FUSE_KERNEL_VERSION || init_in.minor
            < MINIMUM_SUPPORTED_MINOR_VERSION || init_in.flags & FUSE_MAX_PAGES == 0
    }

    /// Answers a message.
    pub fn step(&mut self, message: &Received) -> (step: InitStep)
        requires
            old(self).wf(),
            old(self).attempts() > 0,
            message.wf(),
            countable(old(self).host().order, old(self).settings(), message@),
        ensures
            final(self).wf(),
            final(self).host() == old(self).host(),
            final(self).settings() == old(self).settings(),
            final(self).attempts() == old(self).attempts() - 1,
            ({
                let host = old(self).host();
                let settings = old(self).settings();
                match ending(verdict(host.order, message@)) {
                    None => {
                        &&& step is Again
                        &&& answers(step->Again_0, host, settings, message@)
                    },
                    Some(Outcome::Established(init_in)) => {
                        &&& step is Done
                        &&& answers(step->Done_0, host, settings, message@)
                        &&& step->Done_1.wf()
                        &&& step->Done_1.out() == established(settings, host.page_size, init_in)
                    },
                    Some(Outcome::Failed(error)) => step == InitStep::Fail(error),
                    Some(Outcome::Pending) => false,
                }
            }),
            ({
                let order = old(self).host().order;
                let opcode = order.value(message.header@.subrange(4, 8));
                let major = order.value(message.arg@.subrange(0, 4));
                let minor = order.value(message.arg@.subrange(4, 8));
                let init = message.len >= 40 && opcode == 26;
                &&& step is Done <==> init && message.arg@.len() >= 16 && major == 7 && minor >= 23
                &&& step is Fail <==> message.len < 40 || (init && message.arg@.len() < 16)
                &&& step matches InitStep::Done(reply, info) ==> {
                    &&& info.out().major == 7
                    &&& info.out().minor == if minor < 31 {
                        minor
                    } else {
                        31
                    }
                    &&& info.spec_bufsize() == 0x1000 + old(self).settings().max_write
                }
            }),
    {
        proof {
            if message.len >= 40 {
                law_message_decides(self.host.order, message@);
                law_established(
                    self.config@,
                    self.host.page_size,
                    fuse_init_in::spec_decode(self.host.order, message@.arg),
                );
            }
        }
        self.attempts = self.attempts - 1;
        let host: Host = self.host;
        if message.len < IN_HEADER_SIZE {
            return InitStep::Fail(SessionError::RequestTooShort);
        }
        let in_header = fuse_in_header::decode(host.order, message.header.as_slice());
        if in_header.opcode != FUSE_INIT {
            return InitStep::Again(error_reply(host, in_header.unique, eio()));
        }
        if message.arg.len() < INIT_IN_SIZE {
            return InitStep::Fail(SessionError::UndecodableInit);
        }
        let init_in = fuse_init_in::decode(host.order, message.arg.as_slice());

        let mut out: fuse_init_out = Default::default();
        out.major = FUSE_KERNEL_VERSION;
        out.minor = FUSE_KERNEL_MINOR_VERSION;
        assert(out.unused =~= zeros());
        if init_in.major > FUSE_KERNEL_VERSION {
            return InitStep::Again(init_reply(host, in_header.unique, &out));
        }
        if init_in.major < FUSE_KERNEL_VERSION || init_in.minor < MINIMUM_SUPPORTED_MINOR_VERSION {
            return InitStep::Again(error_reply(host, in_header.unique, host.eproto));
        }
        out = negotiate(&self.config.settings(), host.page_size, &init_in);
        let reply = init_reply(host, in_header.unique, &out);
        out.flags = out.flags | (init_in.flags & !CapabilityFlags::all().bits());
        InitStep::Done(reply, ConnectionInfo::new(out))
    }
}

/// What the kernel reads from the answer to its message: the frame has the length that it says, it
/// names the request, and it carries the error or the values that the request calls for.
pub proof fn law_answer_on_the_wire(
    reply: Reply<Option<Vec<u8>>>,
    host: Host,
    settings: Settings,
    message: Message,
)
    requires
        host.wf(),
        answers(reply, host, settings, message),
    ensures
        ({
            let frame = concat(reply.parts());
            let header = fuse_out_header::spec_decode(host.order, frame);
            &&& header.len == frame.len()
            &&& header.unique == fuse_in_header::spec_decode(host.order, message.header).unique
            &&& match verdict(host.order, message) {
                Verdict::TooShort | Verdict::Undecodable => false,
                Verdict::Foreign => header.error == -eio_code() && frame.len() == 16,
                Verdict::TooOld => header.error == -host.eproto && frame.len() == 16,
                Verdict::TooNew => header.error == 0 && frame.skip(16)
                    == own_version().spec_bytes(host.order),
                Verdict::Supported(init_in) => header.error == 0 && frame.skip(16) == negotiated(
                    settings,
                    host.page_size,
                    init_in,
                ).spec_bytes(host.order),
            }
        }),
{
    law_reply_frame(reply);
    if reply.arg() is Some {
        lemma_one(reply.arg().unwrap()@);
    }
}

/// The agreed version is one that both sides speak.
pub proof fn law_negotiated_version(
    settings: Settings,
    host: Host,
    message: Message,
    init_in: fuse_init_in,
)
    requires
        verdict(host.order, message) == Verdict::Supported(init_in),
    ensures
        negotiated(settings, host.page_size, init_in).major == init_in.major,
        negotiated(settings, host.page_size, init_in).major == FUSE_KERNEL_VERSION,
        MINIMUM_SUPPORTED_MINOR_VERSION <= negotiated(settings, host.page_size, init_in).minor,
        negotiated(settings, host.page_size, init_in).minor <= init_in.minor,
        negotiated(settings, host.page_size, init_in).minor <= FUSE_KERNEL_MINOR_VERSION,
{
}

/// The agreed readahead is no more than either side allows.
pub proof fn law_negotiated_readahead(settings: Settings, page_size: u32, init_in: fuse_init_in)
    ensures
        negotiated(settings, page_size, init_in).max_readahead <= settings.max_readahead,
        negotiated(settings, page_size, init_in).max_readahead <= init_in.max_readahead,
{
}

/// The reply grants exactly the capabilities that the settings ask for and the kernel offers. Of
/// the other flags it sets that of big writes, and that of the page limit where it is offered.
pub proof fn law_negotiated_flags(settings: Settings, page_size: u32, init_in: fuse_init_in)
    ensures
        negotiated(settings, page_size, init_in).flags & ALL_CAPABILITIES == settings.flags
            & init_in.flags & ALL_CAPABILITIES,
        negotiated(settings, page_size, init_in).flags & FUSE_BIG_WRITES == FUSE_BIG_WRITES,
        negotiated(settings, page_size, init_in).flags & FUSE_MAX_PAGES == init_in.flags
            & FUSE_MAX_PAGES,
        negotiated(settings, page_size, init_in).flags & !(ALL_CAPABILITIES | FUSE_BIG_WRITES
            | FUSE_MAX_PAGES) == 0,
{
    let asked = settings.flags;
    let offered = init_in.flags;
    let granted = asked & (offered & ALL_CAPABILITIES);
    assert((granted | FUSE_BIG_WRITES | FUSE_MAX_PAGES) & ALL_CAPABILITIES == asked & offered
        & ALL_CAPABILITIES && (granted | FUSE_BIG_WRITES) & ALL_CAPABILITIES == asked & offered
        & ALL_CAPABILITIES && (granted | FUSE_BIG_WRITES | FUSE_MAX_PAGES) & FUSE_BIG_WRITES
        == FUSE_BIG_WRITES && (granted | FUSE_BIG_WRITES) & FUSE_BIG_WRITES == FUSE_BIG_WRITES
        && (granted | FUSE_BIG_WRITES | FUSE_MAX_PAGES) & FUSE_MAX_PAGES == FUSE_MAX_PAGES && (
    granted | FUSE_BIG_WRITES) & FUSE_MAX_PAGES == 0 && (offered & FUSE_MAX_PAGES != 0 ==> offered
        & FUSE_MAX_PAGES == FUSE_MAX_PAGES) && (granted | FUSE_BIG_WRITES | FUSE_MAX_PAGES) & !(
    ALL_CAPABILITIES | FUSE_BIG_WRITES | FUSE_MAX_PAGES) == 0 && (granted | FUSE_BIG_WRITES) & !(
    ALL_CAPABILITIES | FUSE_BIG_WRITES | FUSE_MAX_PAGES) == 0) by (bit_vector)
        requires
            granted == asked & (offered & ALL_CAPABILITIES),
    ;
}

/// The connection reports the capabilities that were granted, and what the kernel says that it
/// supports: zero-message opens, zero-message opendirs and the page limit.
pub proof fn law_established_flags(settings: Settings, page_size: u32, init_in: fuse_init_in)
    ensures
        established(settings, page_size, init_in).flags & ALL_CAPABILITIES == settings.flags
            & init_in.flags & ALL_CAPABILITIES,
        established(settings, page_size, init_in).flags & FUSE_NO_OPEN_SUPPORT == init_in.flags
            & FUSE_NO_OPEN_SUPPORT,
        established(settings, page_size, init_in).flags & FUSE_NO_OPENDIR_SUPPORT == init_in.flags
            & FUSE_NO_OPENDIR_SUPPORT,
        established(settings, page_size, init_in).flags & FUSE_MAX_PAGES == init_in.flags
            & FUSE_MAX_PAGES,
{
    law_negotiated_flags(settings, page_size, init_in);
    let sent = negotiated(settings, page_size, init_in).flags;
    let offered = init_in.flags;
    let all = sent | (offered & !ALL_CAPABILITIES);
    assert(all & ALL_CAPABILITIES == sent & ALL_CAPABILITIES && all & FUSE_NO_OPEN_SUPPORT
        == offered & FUSE_NO_OPEN_SUPPORT && all & FUSE_NO_OPENDIR_SUPPORT == offered
        & FUSE_NO_OPENDIR_SUPPORT && all & FUSE_MAX_PAGES == offered & FUSE_MAX_PAGES)
        by (bit_vector)
        requires
            all == sent | (offered & !ALL_CAPABILITIES),
            sent & !(ALL_CAPABILITIES | FUSE_BIG_WRITES | FUSE_MAX_PAGES) == 0,
            sent & FUSE_MAX_PAGES == offered & FUSE_MAX_PAGES,
    ;
}

/// The page limit is the least number of pages that hold a write request, as far as the reply has
/// room for that number.
pub proof fn law_negotiated_pages(settings: Settings, page_size: u32, init_in: fuse_init_in)
    requires
        page_size > 0,
        settings.max_write > 0,
        offers_max_pages(init_in),
    ensures
        ({
            let max_pages = negotiated(settings, page_size, init_in).max_pages;
            &&& max_pages > 0
            &&& (max_pages - 1) * page_size < settings.max_write
            &&& max_pages < u16::MAX ==> max_pages * page_size >= settings.max_write
        }),
{
    let size = settings.max_write as int;
    let page = page_size as int;
    let count = (size + page - 1) / page;
    let max_pages = negotiated(settings, page_size, init_in).max_pages as int;
    vstd::arithmetic::div_mod::lemma_fundamental_div_mod(size + page - 1, page);
    assert(count > 0 && (count - 1) * page < size && count * page >= size) by (nonlinear_arith)
        requires
            size > 0,
            page > 0,
            size + page - 1 == page * count + (size + page - 1) % page,
            0 <= (size + page - 1) % page < page,
    ;
    assert((max_pages - 1) * page <= (count - 1) * page) by (nonlinear_arith)
        requires
            page > 0,
            max_pages <= count,
    ;
}

/// Which messages end the handshake, and how. One of less than 40 bytes fails it. Of the others,
/// one whose operation is not 26 is refused, and one for operation 26 fails it unless there are 16
/// bytes after the header. What those bytes offer is accepted where the major version is 7 and the
/// minor version is 23 or any later one, and refused otherwise.
pub proof fn law_message_decides(order: ByteOrder, message: Message)
    requires
        message.header.len() == 40,
    ensures
        ({
            let opcode = order.value(message.header.subrange(4, 8));
            let major = order.value(message.arg.subrange(0, 4));
            let minor = order.value(message.arg.subrange(4, 8));
            let init = message.len >= 40 && opcode == 26;
            let end = ending(verdict(order, message));
            &&& message.len < 40 ==> end == Some(Outcome::Failed(SessionError::RequestTooShort))
            &&& message.len >= 40 && opcode != 26 ==> end is None
            &&& init && message.arg.len() < 16 ==> end == Some(
                Outcome::Failed(SessionError::UndecodableInit),
            )
            &&& init && message.arg.len() >= 16 && (major != 7 || minor < 23) ==> end is None
            &&& init && message.arg.len() >= 16 && major == 7 && minor >= 23 ==> {
                &&& end is Some
                &&& end.unwrap() is Established
                &&& end.unwrap()->Established_0.major == major
                &&& end.unwrap()->Established_0.minor == minor
                &&& end.unwrap()->Established_0.max_readahead == order.value(
                    message.arg.subrange(8, 12),
                )
                &&& end.unwrap()->Established_0.flags == order.value(
                    message.arg.subrange(12, 16),
                )
            }
            &&& refused(order, message) <==> end is None
        }),
{
    law_fuse_in_header_layout(order, message.header);
    if message.arg.len() >= 16 {
        law_fuse_init_in_layout(order, message.arg);
    }
}

/// A message can be answered unless it is one that opens the session, its kernel asks for a page
/// limit, and write requests are to be empty.
pub proof fn law_countable(order: ByteOrder, settings: Settings, message: Message)
    requires
        message.header.len() == 40,
    ensures
        ({
            let opcode = order.value(message.header.subrange(4, 8));
            let major = order.value(message.arg.subrange(0, 4));
            let minor = order.value(message.arg.subrange(4, 8));
            let offered = order.value(message.arg.subrange(12, 16)) as u32;
            countable(order, settings, message) <==> settings.max_write > 0 || message.len < 40
                || opcode != 26 || message.arg.len() < 16 || major != 7 || minor < 23 || offered
                & 0x400000 == 0
        }),
{
    law_fuse_in_header_layout(order, message.header);
    if message.arg.len() >= 16 {
        law_fuse_init_in_layout(order, message.arg);
    }
}

/// The flags of a reply: bit by bit, a known capability is granted where it is asked for and
/// offered; big writes always; the page limit where it is offered; and nothing else.
pub proof fn law_granted_flags(settings: Settings, page_size: u32, init_in: fuse_init_in)
    ensures
        ({
            let sent = negotiated(settings, page_size, init_in).flags;
            &&& sent & 0x1df45b == settings.flags & init_in.flags & 0x1df45b
            &&& sent & 0x20 == 0x20
            &&& sent & 0x400000 == init_in.flags & 0x400000
            &&& sent & 0xffa20b84 == 0
        }),
{
    law_capability_bits();
    law_negotiated_flags(settings, page_size, init_in);
    let sent = negotiated(settings, page_size, init_in).flags;
    assert(sent & !(ALL_CAPABILITIES | FUSE_BIG_WRITES | FUSE_MAX_PAGES) == sent & 0xffa20b84)
        by (bit_vector);
}

/// The page limit of a reply: none where the kernel does not offer one; otherwise the least number
/// of pages that hold a write request, or the largest number that the field has room for.
pub proof fn law_page_limit(settings: Settings, page_size: u32, init_in: fuse_init_in)
    requires
        page_size > 0,
        settings.max_write > 0,
    ensures
        ({
            let limit = negotiated(settings, page_size, init_in).max_pages;
            &&& init_in.flags & 0x400000 == 0 ==> limit == 0
            &&& init_in.flags & 0x400000 != 0 ==> {
                &&& limit > 0
                &&& (limit - 1) * page_size < settings.max_write
                &&& limit < 0xffff ==> limit * page_size >= settings.max_write
            }
        }),
{
    if offers_max_pages(init_in) {
        law_negotiated_pages(settings, page_size, init_in);
    }
}

/// The other values of a reply. The major version is 7. The minor version is that of the kernel,
/// but no later than 31. The readahead is the least that the settings and the kernel allow. All else is
/// as the settings say, and what is reserved is zero.
pub proof fn law_negotiated_values(settings: Settings, page_size: u32, init_in: fuse_init_in)
    ensures
        ({
            let out = negotiated(settings, page_size, init_in);
            &&& out.major == 7
            &&& init_in.minor <= 31 ==> out.minor == init_in.minor
            &&& init_in.minor >= 31 ==> out.minor == 31
            &&& out.max_readahead <= settings.max_readahead
            &&& out.max_readahead <= init_in.max_readahead
            &&& out.max_readahead == settings.max_readahead || out.max_readahead
                == init_in.max_readahead
            &&& out.max_background == settings.max_background
            &&& out.congestion_threshold == settings.congestion_threshold
            &&& out.max_write == settings.max_write
            &&& out.time_gran == settings.time_gran
            &&& out.padding == 0
            &&& forall|i: int| 0 <= i < 8 ==> #[trigger] out.unused@[i] == 0
        }),
{
}

/// The values of the connection are those of the reply, but for the flags: of the known
/// capabilities, those that were granted; of the others, those that the kernel offers, and big
/// writes.
pub proof fn law_established(settings: Settings, page_size: u32, init_in: fuse_init_in)
    ensures
        ({
            let sent = negotiated(settings, page_size, init_in);
            let out = established(settings, page_size, init_in);
            &&& out.major == 7
            &&& init_in.minor <= 31 ==> out.minor == init_in.minor
            &&& init_in.minor >= 31 ==> out.minor == 31
            &&& out.max_readahead == sent.max_readahead
            &&& out.flags & 0x1df45b == settings.flags & init_in.flags & 0x1df45b
            &&& out.flags & 0xffe20ba4 == (init_in.flags & 0xffe20ba4) | 0x20
            &&& out.max_background == settings.max_background
            &&& out.congestion_threshold == settings.congestion_threshold
            &&& out.max_write == settings.max_write
            &&& out.time_gran == settings.time_gran
            &&& out.max_pages == sent.max_pages
        }),
{
    law_capability_bits();
    law_granted_flags(settings, page_size, init_in);
    let asked = settings.flags;
    let offered = init_in.flags;
    let sent = negotiated(settings, page_size, init_in).flags;
    let flags = established(settings, page_size, init_in).flags;
    assert(flags & 0x1df45b == asked & offered & 0x1df45b && flags & 0xffe20ba4 == (offered
        & 0xffe20ba4) | 0x20) by (bit_vector)
        requires
            flags == sent | (offered & !ALL_CAPABILITIES),
            sent & 0x1df45b == asked & offered & 0x1df45b,
            sent & 0x20 == 0x20,
            sent & 0x400000 == offered & 0x400000,
            sent & 0xffa20b84 == 0,
    ;
}

/// A complete message that asks for operation 26 with major version 7 opens the session whatever
/// minor version from 23 on it has, with no upper bound, and the version agreed on is the lesser of
/// 31 and that of the kernel.
pub proof fn law_later_minor_accepted(
    order: ByteOrder,
    settings: Settings,
    page_size: u32,
    message: Message,
)
    requires
        message.len >= 40,
        message.header.len() == 40,
        message.arg.len() >= 16,
        order.value(message.header.subrange(4, 8)) == 26,
        order.value(message.arg.subrange(0, 4)) == 7,
        order.value(message.arg.subrange(4, 8)) >= 23,
    ensures
        ({
            let minor = order.value(message.arg.subrange(4, 8));
            let end = ending(verdict(order, message));
            &&& end is Some
            &&& end.unwrap() is Established
            &&& established(settings, page_size, end.unwrap()->Established_0).major == 7
            &&& established(settings, page_size, end.unwrap()->Established_0).minor == if minor
                < 31 {
                minor
            } else {
                31
            }
        }),
{
    law_message_decides(order, message);
    law_established(
        settings,
        page_size,
        ending(verdict(order, message)).unwrap()->Established_0,
    );
}

/// What the kernel reads from the answer to its message, byte by byte. The answer is as long as it
/// says and names the request. A message for an operation other than 26 is answered by error 5, and
/// one that offers too old a version by the host's error, with no argument. A newer major version
/// is answered by version 7.31 and zeros. A supported version is answered by the version to speak, and
/// by the values agreed on.
#[verifier::rlimit(40)]
#[verifier::spinoff_prover]
pub proof fn law_answer_bytes(
    reply: Reply<Option<Vec<u8>>>,
    host: Host,
    settings: Settings,
    message: Message,
)
    requires
        host.wf(),
        answers(reply, host, settings, message),
        message.header.len() == 40,
    ensures
        ({
            let order = host.order;
            let frame = concat(reply.parts());
            let opcode = order.value(message.header.subrange(4, 8));
            let major = order.value(message.arg.subrange(0, 4));
            let minor = order.value(message.arg.subrange(4, 8));
            let offered = order.value(message.arg.subrange(12, 16)) as u32;
            let flags = order.value(frame.subrange(28, 32)) as u32;
            let limit = order.value(frame.subrange(44, 46));
            &&& message.len >= 40
            &&& order.value(frame.subrange(0, 4)) == frame.len()
            &&& order.value(frame.subrange(8, 16)) == order.value(message.header.subrange(8, 16))
            &&& opcode != 26 ==> {
                &&& frame.len() == 16
                &&& order.value(frame.subrange(4, 8)) == 0x1_0000_0000 - 5
            }
            &&& opcode == 26 ==> message.arg.len() >= 16
            &&& opcode == 26 && (major < 7 || (major == 7 && minor < 23)) ==> {
                &&& frame.len() == 16
                &&& order.value(frame.subrange(4, 8)) == 0x1_0000_0000 - host.eproto
            }
            &&& opcode == 26 && (major > 7 || (major == 7 && minor >= 23)) ==> {
                &&& frame.len() == 80
                &&& order.value(frame.subrange(4, 8)) == 0
                &&& order.value(frame.subrange(16, 20)) == 7
                &&& order.value(frame.subrange(46, 48)) == 0
                &&& forall|i: int|
                    0 <= i < 8 ==> order.value(
                        #[trigger] frame.subrange(48 + 4 * i, 52 + 4 * i),
                    ) == 0
            }
            &&& opcode == 26 && major > 7 ==> {
                &&& order.value(frame.subrange(20, 24)) == 31
                &&& order.value(frame.subrange(24, 28)) == 0
                &&& order.value(frame.subrange(28, 32)) == 0
                &&& order.value(frame.subrange(32, 34)) == 0
                &&& order.value(frame.subrange(34, 36)) == 0
                &&& order.value(frame.subrange(36, 40)) == 0
                &&& order.value(frame.subrange(40, 44)) == 0
                &&& limit == 0
            }
            &&& opcode == 26 && major == 7 && minor >= 23 ==> {
                &&& order.value(frame.subrange(20, 24)) == if minor < 31 {
                    minor
                } else {
                    31
                }
                &&& order.value(frame.subrange(24, 28)) == if order.value(
                    message.arg.subrange(8, 12),
                ) < settings.max_readahead {
                    order.value(message.arg.subrange(8, 12))
                } else {
                    settings.max_readahead as nat
                }
                &&& flags & 0x1df45b == settings.flags & offered & 0x1df45b
                &&& flags & 0x20 == 0x20
                &&& flags & 0x400000 == offered & 0x400000
                &&& flags & 0xffa20b84 == 0
                &&& order.value(frame.subrange(32, 34)) == settings.max_background
                &&& order.value(frame.subrange(34, 36)) == settings.congestion_threshold
                &&& order.value(frame.subrange(36, 40)) == settings.max_write
                &&& order.value(frame.subrange(40, 44)) == settings.time_gran
                &&& offered & 0x400000 == 0 ==> limit == 0
                &&& offered & 0x400000 != 0 && settings.max_write > 0 ==> {
                    &&& limit > 0
                    &&& (limit - 1) * host.page_size < settings.max_write
                    &&& limit < 0xffff ==> limit * host.page_size >= settings.max_write
                }
            }
        }),
{
    let order = host.order;
    let frame = concat(reply.parts());
    law_fuse_in_header_layout(order, message.header);
    let unique = fuse_in_header::spec_decode(order, message.header).unique;
    match verdict(order, message) {
        Verdict::TooShort | Verdict::Undecodable => {},
        Verdict::Foreign => {
            law_reply_on_the_wire(reply, unique, eio_code(), reply.arg());
        },
        Verdict::TooOld => {
            law_fuse_init_in_layout(order, message.arg);
            law_reply_on_the_wire(reply, unique, host.eproto, reply.arg());
        },
        Verdict::TooNew => {
            law_fuse_init_in_layout(order, message.arg);
            lemma_init_reply_bytes(reply, order, unique, own_version());
        },
        Verdict::Supported(init_in) => {
            law_fuse_init_in_layout(order, message.arg);
            lemma_init_reply_bytes(
                reply,
                order,
                unique,
                negotiated(settings, host.page_size, init_in),
            );
            law_negotiated_values(settings, host.page_size, init_in);
            law_granted_flags(settings, host.page_size, init_in);
            if settings.max_write > 0 {
                law_page_limit(settings, host.page_size, init_in);
            }
        },
    }
}

/// The fields of an INIT reply stand in its frame 16 bytes later than in the structure.
proof fn lemma_init_reply_bytes(
    reply: Reply<Option<Vec<u8>>>,
    order: ByteOrder,
    unique: u64,
    out: fuse_init_out,
)
    requires
        is_init_reply(reply, order, unique, out),
    ensures
        ({
            let frame = concat(reply.parts());
            &&& frame.len() == 80
            &&& order.value(frame.subrange(0, 4)) == 80
            &&& order.value(frame.subrange(4, 8)) == 0
            &&& order.value(frame.subrange(8, 16)) == unique
            &&& order.value(frame.subrange(16, 20)) == out.major
            &&& order.value(frame.subrange(20, 24)) == out.minor
            &&& order.value(frame.subrange(24, 28)) == out.max_readahead
            &&& order.value(frame.subrange(28, 32)) == out.flags
            &&& order.value(frame.subrange(32, 34)) == out.max_background
            &&& order.value(frame.subrange(34, 36)) == out.congestion_threshold
            &&& order.value(frame.subrange(36, 40)) == out.max_write
            &&& order.value(frame.subrange(40, 44)) == out.time_gran
            &&& order.value(frame.subrange(44, 46)) == out.max_pages
            &&& order.value(frame.subrange(46, 48)) == out.padding
            &&& forall|i: int|
                0 <= i < 8 ==> order.value(#[trigger] frame.subrange(48 + 4 * i, 52 + 4 * i))
                    == out.unused@[i]
        }),
{
    let arg = out.spec_bytes(order);
    let frame = concat(reply.parts());
    law_fuse_init_out_layout(order, out);
    lemma_one(arg);
    assert(reply.arg().parts() =~= seq![arg]);
    law_reply_on_the_wire(reply, unique, 0, reply.arg());
    assert(frame.subrange(16, 80) == arg);
    assert(frame.subrange(16, 20) =~= arg.subrange(0, 4));
    assert(frame.subrange(20, 24) =~= arg.subrange(4, 8));
    assert(frame.subrange(24, 28) =~= arg.subrange(8, 12));
    assert(frame.subrange(28, 32) =~= arg.subrange(12, 16));
    assert(frame.subrange(32, 34) =~= arg.subrange(16, 18));
    assert(frame.subrange(34, 36) =~= arg.subrange(18, 20));
    assert(frame.subrange(36, 40) =~= arg.subrange(20, 24));
    assert(frame.subrange(40, 44) =~= arg.subrange(24, 28));
    assert(frame.subrange(44, 46) =~= arg.subrange(28, 30));
    assert(frame.subrange(46, 48) =~= arg.subrange(30, 32));
    assert forall|i: int| 0 <= i < 8 implies order.value(
        #[trigger] frame.subrange(48 + 4 * i, 52 + 4 * i),
    ) == out.unused@[i] by {
        assert(frame.subrange(48 + 4 * i, 52 + 4 * i) =~= arg.subrange(
            32 + 4 * i,
            32 + 4 * i + 4,
        ));
    }
}

/// A write request of the agreed size fits in the buffer of a request, with its header and its
/// fixed argument.
pub proof fn law_write_request_fits(info: ConnectionInfo)
    requires
        info.wf(),
    ensures
        IN_HEADER_SIZE + WRITE_IN_SIZE + info.out().max_write <= info.spec_bufsize(),
{
}

/// How a handshake that answers at most `attempts` messages ends, after the given messages.
pub open spec fn outcome(order: ByteOrder, messages: Seq<Message>, attempts: nat) -> Outcome
    decreases messages.len(),
{
    if attempts == 0 {
        Outcome::Failed(SessionError::InitAborted)
    } else if messages.len() == 0 {
        Outcome::Pending
    } else {
        match ending(verdict(order, messages[0])) {
            Some(end) => end,
            None => outcome(order, messages.drop_first(), (attempts - 1) as nat),
        }
    }
}

/// The number of messages that the handshake answers.
pub open spec fn answered(order: ByteOrder, messages: Seq<Message>, attempts: nat) -> nat
    decreases messages.len(),
{
    if attempts == 0 || messages.len() == 0 {
        0
    } else {
        match ending(verdict(order, messages[0])) {
            Some(Outcome::Established(init_in)) => 1,
            Some(_) => 0,
            None => 1 + answered(order, messages.drop_first(), (attempts - 1) as nat),
        }
    }
}

/// The messages themselves.
pub open spec fn views(messages: Seq<Received>) -> Seq<Message> {
    Seq::new(messages.len(), |i: int| messages[i]@)
}

/// Where a handshake stands.
pub enum InitResult {
    /// It waits for another message.
    Pending,
    /// The session is open.
    Established(ConnectionInfo),
    /// There is no session.
    Failed(SessionError),
}

/// Whether the message is answered without opening the session.
pub open spec fn refused(order: ByteOrder, message: Message) -> bool {
    ending(verdict(order, message)) is None
}

/// Whether the handshake comes to the message with the index `i`: it answers one more, and all
/// before were refused.
pub open spec fn reached(order: ByteOrder, messages: Seq<Message>, i: int) -> bool {
    &&& i < MAX_ATTEMPTS
    &&& forall|j: int| 0 <= j < i ==> #[trigger] refused(order, messages[j])
}

/// Goes through the handshake as far as the messages of the kernel lead: gives the replies to
/// them, in order, and where the handshake stands then.
pub fn init_session(host: Host, config: Config, messages: &Vec<Received>) -> (result: (
    Vec<Reply<Option<Vec<u8>>>>,
    InitResult,
))
    requires
        host.wf(),
        BUFFER_HEADER_SIZE + config@.max_write <= usize::MAX,
        forall|i: int|
            0 <= i < messages@.len() && reached(host.order, views(messages@), i) ==> (
            #[trigger] messages@[i]).wf() && countable(host.order, config@, messages@[i]@),
    ensures
        result.0@.len() == answered(host.order, views(messages@), MAX_ATTEMPTS as nat),
        result.0@.len() <= messages@.len(),
        forall|i: int|
            0 <= i < result.0@.len() ==> answers(
                #[trigger] result.0@[i],
                host,
                config@,
                messages@[i]@,
            ),
        match outcome(host.order, views(messages@), MAX_ATTEMPTS as nat) {
            Outcome::Pending => result.1 is Pending,
            Outcome::Established(init_in) => {
                &&& result.1 is Established
                &&& result.1->Established_0.wf()
                &&& result.1->Established_0.out() == established(config@, host.page_size, init_in)
            },
            Outcome::Failed(error) => result.1 == InitResult::Failed(error),
        },
{
    let ghost order = host.order;
    let ghost settings = config@;
    let ghost all = views(messages@);
    let mut handshake = Handshake::new(host, config);
    let mut replies: Vec<Reply<Option<Vec<u8>>>> = Vec::new();
    let mut i: usize = 0;
    assert(all.skip(0) =~= all);
    loop
        invariant
            all == views(messages@),
            order == host.order,
            settings == config@,
            handshake.wf(),
            handshake.host() == host,
            handshake.settings() == settings,
            i <= messages@.len(),
            replies@.len() == i,
            i + handshake.attempts() == MAX_ATTEMPTS,
            outcome(order, all, MAX_ATTEMPTS as nat) == outcome(
                order,
                all.skip(i as int),
                handshake.attempts() as nat,
            ),
            answered(order, all, MAX_ATTEMPTS as nat) == i + answered(
                order,
                all.skip(i as int),
                handshake.attempts() as nat,
            ),
            forall|j: int|
                0 <= j < messages@.len() && reached(order, all, j) ==> (
                #[trigger] messages@[j]).wf() && countable(order, settings, messages@[j]@),
            forall|j: int| 0 <= j < i ==> #[trigger] refused(order, all[j]),
            forall|j: int|
                0 <= j < i ==> answers(#[trigger] replies@[j], host, settings, messages@[j]@),
        decreases messages@.len() - i,
    {
        match handshake.awaits() {
            Ok(()) => {},
            Err(error) => {
                return (replies, InitResult::Failed(error));
            },
        }
        if i == messages.len() {
            return (replies, InitResult::Pending);
        }
        proof {
            assert(all.skip(i as int)[0] == messages@[i as int]@);
            assert(all.skip(i as int).drop_first() =~= all.skip(i + 1));
            assert(reached(order, all, i as int));
        }
        match handshake.step(&messages[i]) {
            InitStep::Fail(error) => {
                return (replies, InitResult::Failed(error));
            },
            InitStep::Again(reply) => {
                replies.push(reply);
                i = i + 1;
            },
            InitStep::Done(reply, info) => {
                replies.push(reply);
                return (replies, InitResult::Established(info));
            },
        }
    }
}

/// A handshake ends by the first message that is not refused, whatever was refused before: if that
/// message is a supported INIT request, the session is open.
pub proof fn law_first_not_refused_decides(
    order: ByteOrder,
    messages: Seq<Message>,
    attempts: nat,
    k: int,
)
    requires
        0 <= k < messages.len(),
        k < attempts,
        forall|j: int| 0 <= j < k ==> #[trigger] refused(order, messages[j]),
        !refused(order, messages[k]),
    ensures
        Some(outcome(order, messages, attempts)) == ending(verdict(order, messages[k])),
    decreases k,
{
    if k > 0 {
        assert(refused(order, messages[0]));
        let rest = messages.drop_first();
        assert forall|j: int| 0 <= j < k - 1 implies #[trigger] refused(order, rest[j]) by {
            assert(refused(order, messages[j + 1]));
        }
        law_first_not_refused_decides(order, rest, (attempts - 1) as nat, k - 1);
    }
}

/// A handshake in which as many messages are refused as it answers is aborted, after it has
/// answered them all.
pub proof fn law_refusals_abort(order: ByteOrder, messages: Seq<Message>, attempts: nat)
    requires
        attempts <= messages.len(),
        forall|j: int| 0 <= j < attempts ==> #[trigger] refused(order, messages[j]),
    ensures
        outcome(order, messages, attempts) == Outcome::Failed(SessionError::InitAborted),
        answered(order, messages, attempts) == attempts,
    decreases attempts,
{
    if attempts > 0 {
        assert(refused(order, messages[0]));
        let rest = messages.drop_first();
        assert forall|j: int| 0 <= j < attempts - 1 implies #[trigger] refused(order, rest[j]) by {
            assert(refused(order, messages[j + 1]));
        }
        law_refusals_abort(order, rest, (attempts - 1) as nat);
    }
}

/// A handshake answers no more messages than it may, nor than there are.
pub proof fn law_answers_bounded(order: ByteOrder, messages: Seq<Message>, attempts: nat)
    ensures
        answered(order, messages, attempts) <= attempts,
        answered(order, messages, attempts) <= messages.len(),
    decreases messages.len(),
{
    if attempts > 0 && messages.len() > 0 {
        law_answers_bounded(order, messages.drop_first(), (attempts - 1) as nat);
    }
}

/// A handshake in which every message is refused, and in which there are fewer than it may answer,
/// waits for another, after it has answered them all.
pub proof fn law_refusals_pend(order: ByteOrder, messages: Seq<Message>, attempts: nat)
    requires
        messages.len() < attempts,
        forall|j: int| 0 <= j < messages.len() ==> #[trigger] refused(order, messages[j]),
    ensures
        outcome(order, messages, attempts) is Pending,
        answered(order, messages, attempts) == messages.len(),
    decreases messages.len(),
{
    if messages.len() > 0 {
        assert(refused(order, messages[0]));
        let rest = messages.drop_first();
        assert forall|j: int| 0 <= j < rest.len() implies #[trigger] refused(order, rest[j]) by {
            assert(refused(order, messages[j + 1]));
        }
        law_refusals_pend(order, rest, (attempts - 1) as nat);
    }
}

/// A handshake answers every message before the first that is not refused, and that one too if it
/// opens the session.
pub proof fn law_answers_up_to_decision(
    order: ByteOrder,
    messages: Seq<Message>,
    attempts: nat,
    k: int,
)
    requires
        0 <= k < messages.len(),
        k < attempts,
        forall|j: int| 0 <= j < k ==> #[trigger] refused(order, messages[j]),
        !refused(order, messages[k]),
    ensures
        answered(order, messages, attempts) == if outcome(order, messages, attempts)
            is Established {
            k + 1
        } else {
            k
        },
    decreases k,
{
    if k > 0 {
        assert(refused(order, messages[0]));
        let rest = messages.drop_first();
        assert forall|j: int| 0 <= j < k - 1 implies #[trigger] refused(order, rest[j]) by {
            assert(refused(order, messages[j + 1]));
        }
        law_answers_up_to_decision(order, rest, (attempts - 1) as nat, k - 1);
    }
}

/// The messages of a handshake are those that were read, in their order.
pub proof fn law_views(messages: Seq<Received>)
    ensures
        views(messages).len() == messages.len(),
        forall|i: int| 0 <= i < messages.len() ==> #[trigger] views(messages)[i] == messages[i]@,
{
}

/// A handshake can go on where the host is in order and the buffer of a request fits in memory.
pub proof fn law_handshake(handshake: Handshake)
    ensures
        handshake.wf() <==> handshake.host().wf() && 4096 + handshake.settings().max_write
            <= usize::MAX,
{
}

/// A handshake comes to one of its first ten messages where all before it were refused.
pub proof fn law_reached(order: ByteOrder, messages: Seq<Message>, i: int)
    ensures
        reached(order, messages, i) <==> i < 10 && forall|j: int|
            0 <= j < i ==> ending(#[trigger] verdict(order, messages[j])) is None,
{
    if reached(order, messages, i) {
        assert forall|j: int| 0 <= j < i implies ending(#[trigger] verdict(order, messages[j]))
            is None by {
            assert(refused(order, messages[j]));
        }
    }
    if i < 10 && (forall|j: int|
        0 <= j < i ==> ending(#[trigger] verdict(order, messages[j])) is None) {
        assert forall|j: int| 0 <= j < i implies #[trigger] refused(order, messages[j]) by {
            assert(ending(verdict(order, messages[j])) is None);
        }
    }
}

/// The kernel lets the reply limit the pages where bit 22 of its flags is set.
pub proof fn law_offers_max_pages(init_in: fuse_init_in)
    ensures
        offers_max_pages(init_in) <==> init_in.flags & 0x400000 != 0,
{
}

/// The limits of a handshake.
pub proof fn law_handshake_limits()
    ensures
        MINIMUM_SUPPORTED_MINOR_VERSION == 23,
        MAX_ATTEMPTS == 10,
        MAX_MAX_PAGES == 256,
{
}

} // verus!

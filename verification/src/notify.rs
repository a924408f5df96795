//! Messages that the filesystem sends to the kernel unasked.

use crate::bytes::{Bytes, FillWriteBytes};
use crate::kernel::{
    fuse_notify_delete_out, fuse_notify_inval_entry_out, fuse_notify_inval_inode_out,
    fuse_notify_poll_wakeup_out, fuse_notify_retrieve_out, fuse_notify_store_out, fuse_out_header,
    FUSE_NOTIFY_DELETE, FUSE_NOTIFY_INVAL_ENTRY, FUSE_NOTIFY_INVAL_INODE, FUSE_NOTIFY_POLL,
    FUSE_NOTIFY_RETRIEVE, FUSE_NOTIFY_STORE,
};
use crate::session::Session;
use crate::wire::ByteOrder;
use vstd::prelude::*;
#[allow(unused_imports)]
use crate::bytes::{concat, lemma_concat_add, lemma_concat_len, lemma_one, total_len};
#[allow(unused_imports)]
use crate::kernel::{
    law_fuse_notify_delete_out_layout, law_fuse_notify_delete_out_round_trip,
    law_fuse_notify_inval_entry_out_layout, law_fuse_notify_inval_entry_out_round_trip,
    law_fuse_notify_inval_inode_out_layout, law_fuse_notify_inval_inode_out_round_trip,
    law_fuse_notify_poll_wakeup_out_layout, law_fuse_notify_poll_wakeup_out_round_trip,
    law_fuse_notify_retrieve_out_layout, law_fuse_notify_retrieve_out_round_trip,
    law_fuse_notify_store_out_layout, law_fuse_notify_store_out_round_trip,
    law_fuse_out_header_layout,
};
#[allow(unused_imports)]
use crate::reply::lemma_header_prefix;
#[allow(unused_imports)]
use crate::session::notify_unique_after;

verus! {

/// A notification: a header, a fixed argument, and the chunks of a payload.
pub struct Notification<T> {
    order: ByteOrder,
    header: fuse_out_header,
    head: Vec<u8>,
    arg: Vec<u8>,
    payload: T,
}

impl<T> Notification<T> {
    /// The byte order of the frame.
    pub closed spec fn order(&self) -> ByteOrder {
        self.order
    }

    /// The header of the frame.
    pub closed spec fn header(&self) -> fuse_out_header {
        self.header
    }

    /// The bytes of the fixed argument.
    pub closed spec fn arg(&self) -> Seq<u8> {
        self.arg@
    }

    /// What follows the fixed argument.
    pub closed spec fn payload(&self) -> T {
        self.payload
    }

    closed spec fn head(&self) -> Seq<u8> {
        self.head@
    }
}

/// The header of a notification whose argument and payload have `size` bytes.
pub open spec fn notification_header(code: i32, size: nat) -> fuse_out_header {
    fuse_out_header { len: (16 + size) as u32, error: code, unique: 0 }
}

impl<T: Bytes> Notification<T> {
    fn new(order: ByteOrder, code: i32, arg: Vec<u8>, payload: T) -> (message: Self)
        requires
            payload.wf(),
            16 + arg@.len() + total_len(payload.parts()) <= u32::MAX,
        ensures
            message.wf(),
            message.order() == order,
            message.header() == notification_header(
                code,
                arg@.len() + total_len(payload.parts()),
            ),
            message.header().len == 16 + arg@.len() + total_len(payload.parts()),
            message.header().error == code,
            message.header().unique == 0,
            message.arg() == arg@,
            message.payload() == payload,
    {
        let len: u32 = (16 + arg.len() + payload.size()) as u32;
        let header = fuse_out_header { len, error: code, unique: 0 };
        let head: Vec<u8> = header.encode(order);
        Notification { order, header, head, arg, payload }
    }
}

impl<T: Bytes> Bytes for Notification<T> {
    open spec fn parts(&self) -> Seq<Seq<u8>> {
        seq![self.header().spec_bytes(self.order()), self.arg()] + self.payload().parts()
    }

    closed spec fn wf(&self) -> bool {
        &&& self.head() == self.header().spec_bytes(self.order())
        &&& self.header().len == 16 + self.arg().len() + total_len(self.payload().parts())
        &&& self.payload().wf()
    }

    fn size(&self) -> (size: usize) {
        proof {
            law_notification_frame(*self);
            lemma_concat_len(self.parts());
        }
        self.header.len as usize
    }

    fn count(&self) -> (count: usize) {
        self.payload.count() + 2
    }

    fn fill_bytes<'a>(&'a self, dst: &mut FillWriteBytes<'a>) {
        let ghost before = dst@;
        dst.put(self.head.as_slice());
        dst.put(self.arg.as_slice());
        self.payload.fill_bytes(dst);
        assert(dst@ =~= before + self.parts());
    }
}

/// The frame of a notification is as long as its header says, starts with that header, and goes
/// on with the argument and the payload.
pub proof fn law_notification_frame<T: Bytes>(message: Notification<T>)
    requires
        message.wf(),
    ensures
        concat(message.parts()).len() == message.header().len,
        total_len(message.parts()) == message.header().len,
        fuse_out_header::spec_decode(message.order(), concat(message.parts()))
            == message.header(),
        concat(message.parts()).skip(16) == message.arg() + concat(message.payload().parts()),
{
    let head = message.header().spec_bytes(message.order());
    let rest = message.payload().parts();
    assert(message.parts() =~= seq![head] + (seq![message.arg()] + rest));
    lemma_concat_add(seq![head], seq![message.arg()] + rest);
    lemma_concat_add(seq![message.arg()], rest);
    lemma_one(head);
    lemma_one(message.arg());
    lemma_concat_len(rest);
    lemma_header_prefix(message.order(), message.header(), message.arg() + concat(rest));
}

/// The name of a directory entry, which ends with a NUL on the wire.
pub struct EntryName<'n> {
    name: &'n [u8],
    nul: Vec<u8>,
}

impl<'n> EntryName<'n> {
    /// The name without the NUL.
    pub closed spec fn name(&self) -> Seq<u8> {
        self.name@
    }

    closed spec fn terminated(&self) -> bool {
        self.nul@ == seq![0u8]
    }

    fn new(name: &'n [u8]) -> (this: Self)
        ensures
            this.wf(),
            this.name() == name@,
            total_len(this.parts()) == name@.len() + 1,
    {
        let mut nul: Vec<u8> = Vec::new();
        nul.push(0);
        assert(nul@ =~= seq![0u8]);
        let this = EntryName { name, nul };
        proof {
            lemma_entry_name(name@);
        }
        this
    }
}

proof fn lemma_entry_name(name: Seq<u8>)
    ensures
        total_len(seq![name, seq![0u8]]) == name.len() + 1,
        concat(seq![name, seq![0u8]]) == name.push(0),
{
    assert(seq![name, seq![0u8]] =~= seq![name] + seq![seq![0u8]]);
    lemma_concat_add(seq![name], seq![seq![0u8]]);
    lemma_one(name);
    lemma_one(seq![0u8]);
    assert(name + seq![0u8] =~= name.push(0));
}

impl<'n> Bytes for EntryName<'n> {
    open spec fn parts(&self) -> Seq<Seq<u8>> {
        seq![self.name(), seq![0u8]]
    }

    closed spec fn wf(&self) -> bool {
        self.terminated()
    }

    fn size(&self) -> (size: usize) {
        proof {
            lemma_entry_name(self.name());
        }
        self.name.len() + 1
    }

    fn count(&self) -> (count: usize) {
        2
    }

    fn fill_bytes<'a>(&'a self, dst: &mut FillWriteBytes<'a>) {
        let ghost before = dst@;
        dst.put(self.name);
        dst.put(self.nul.as_slice());
        assert(dst@ =~= before + self.parts());
    }
}

/// Builds the notifications of a session.
#[derive(Debug, Clone, Copy, PartialEq, Eq, Structural)]
pub struct Notifier {
    order: ByteOrder,
}

impl Notifier {
    /// The byte order of the frames.
    pub closed spec fn order(&self) -> ByteOrder {
        self.order
    }

    /// A notifier for a host of the given byte order.
    pub fn new(order: ByteOrder) -> (notifier: Self)
        ensures
            notifier.order() == order,
    {
        Notifier { order }
    }

    /// Notify the cache invalidation about an inode to the kernel.
    pub fn inval_inode(&self, ino: u64, off: i64, len: i64) -> (message: Notification<()>)
        ensures
            message.wf(),
            message.order() == self.order(),
            message.header() == notification_header(FUSE_NOTIFY_INVAL_INODE, 24),
            message.header().error == 2,
            message.header().unique == 0,
            message.arg() == (fuse_notify_inval_inode_out { ino, off, len }).spec_bytes(
                self.order(),
            ),
    {
        let arg = fuse_notify_inval_inode_out { ino, off, len };
        Notification::new(self.order, FUSE_NOTIFY_INVAL_INODE, arg.encode(self.order), ())
    }

    /// Notify the invalidation about a directory entry to the kernel.
    pub fn inval_entry<'n>(&self, parent: u64, name: &'n [u8]) -> (message: Notification<
        EntryName<'n>,
    >)
        requires
            33 + name@.len() <= u32::MAX,
        ensures
            message.wf(),
            message.order() == self.order(),
            message.header() == notification_header(FUSE_NOTIFY_INVAL_ENTRY, 17 + name@.len()),
            message.header().error == 3,
            message.header().unique == 0,
            message.arg() == (fuse_notify_inval_entry_out {
                parent,
                namelen: name@.len() as u32,
                padding: 0,
            }).spec_bytes(self.order()),
            message.payload().name() == name@,
    {
        let arg = fuse_notify_inval_entry_out { parent, namelen: name.len() as u32, padding: 0 };
        Notification::new(
            self.order,
            FUSE_NOTIFY_INVAL_ENTRY,
            arg.encode(self.order),
            EntryName::new(name),
        )
    }

    /// Notify the invalidation about a directory entry to the kernel.
    ///
    /// The role of this notification is similar to `inval_entry`.
    /// Additionally, when the provided `child` inode matches the inode
    /// in the dentry cache, the inotify will inform the deletion to
    /// watchers if exists.
    pub fn delete<'n>(&self, parent: u64, child: u64, name: &'n [u8]) -> (message: Notification<
        EntryName<'n>,
    >)
        requires
            41 + name@.len() <= u32::MAX,
        ensures
            message.wf(),
            message.order() == self.order(),
            message.header() == notification_header(FUSE_NOTIFY_DELETE, 25 + name@.len()),
            message.header().error == 6,
            message.header().unique == 0,
            message.arg() == (fuse_notify_delete_out {
                parent,
                child,
                namelen: name@.len() as u32,
                padding: 0,
            }).spec_bytes(self.order()),
            message.payload().name() == name@,
    {
        let arg = fuse_notify_delete_out {
            parent,
            child,
            namelen: name.len() as u32,
            padding: 0,
        };
        Notification::new(
            self.order,
            FUSE_NOTIFY_DELETE,
            arg.encode(self.order),
            EntryName::new(name),
        )
    }

    /// Push the data in an inode for updating the kernel cache.
    pub fn store<T: Bytes>(&self, ino: u64, offset: u64, data: T) -> (message: Notification<T>)
        requires
            data.wf(),
            40 + total_len(data.parts()) <= u32::MAX,
        ensures
            message.wf(),
            message.order() == self.order(),
            message.header() == notification_header(
                FUSE_NOTIFY_STORE,
                24 + total_len(data.parts()),
            ),
            message.header().error == 4,
            message.header().unique == 0,
            message.arg() == (fuse_notify_store_out {
                nodeid: ino,
                offset,
                size: total_len(data.parts()) as u32,
                padding: 0,
            }).spec_bytes(self.order()),
            message.payload() == data,
    {
        let arg = fuse_notify_store_out {
            nodeid: ino,
            offset,
            size: data.size() as u32,
            padding: 0,
        };
        Notification::new(self.order, FUSE_NOTIFY_STORE, arg.encode(self.order), data)
    }

    /// Retrieve data in an inode from the kernel cache.
    ///
    /// The first of the results is the identifier that the kernel's answer carries: the next of
    /// the session.
    pub fn retrieve(
        &self,
        session: &mut Session,
        ino: u64,
        offset: u64,
        size: u32,
    ) -> (result: (u64, Notification<()>))
        ensures
            result.0 == old(session).next_notify_unique(),
            result.1.wf(),
            result.1.order() == self.order(),
            result.1.header() == notification_header(FUSE_NOTIFY_RETRIEVE, 32),
            result.1.header().error == 5,
            result.1.header().unique == 0,
            result.1.arg() == (fuse_notify_retrieve_out {
                notify_unique: result.0,
                nodeid: ino,
                offset,
                size,
                padding: 0,
            }).spec_bytes(self.order()),
            final(session).next_notify_unique() == notify_unique_after(
                old(session).next_notify_unique(),
                1,
            ),
            final(session).next_notify_unique() == (old(session).next_notify_unique() + 1)
                % 0x1_0000_0000_0000_0000,
            final(session).order() == old(session).order(),
            final(session).info() == old(session).info(),
            final(session).is_exited() == old(session).is_exited(),
    {
        proof {
            reveal_with_fuel(notify_unique_after, 2);
        }
        let notify_unique: u64 = session.take_notify_unique();
        let arg = fuse_notify_retrieve_out { notify_unique, nodeid: ino, offset, size, padding: 0 };
        let message = Notification::new(
            self.order,
            FUSE_NOTIFY_RETRIEVE,
            arg.encode(self.order),
            (),
        );
        (notify_unique, message)
    }

    /// Send I/O readiness to the kernel.
    pub fn poll_wakeup(&self, kh: u64) -> (message: Notification<()>)
        ensures
            message.wf(),
            message.order() == self.order(),
            message.header() == notification_header(FUSE_NOTIFY_POLL, 8),
            message.header().error == 1,
            message.header().unique == 0,
            message.arg() == (fuse_notify_poll_wakeup_out { kh }).spec_bytes(self.order()),
    {
        let arg = fuse_notify_poll_wakeup_out { kh };
        Notification::new(self.order, FUSE_NOTIFY_POLL, arg.encode(self.order), ())
    }
}

/// In the frame of a notification about a directory entry, the fixed argument is followed by the
/// name and one NUL.
pub proof fn law_entry_frame(message: Notification<EntryName<'_>>)
    requires
        message.wf(),
    ensures
        concat(message.parts()).skip(16) == message.arg() + message.payload().name().push(0),
        message.header().len == 16 + message.arg().len() + message.payload().name().len() + 1,
{
    law_notification_frame(message);
    lemma_entry_name(message.payload().name());
    lemma_concat_len(message.parts());
}

/// What the kernel reads from the frame of a notification, whatever its size: its length in bytes 0
/// to 3, the code in bytes 4 to 7, zero for a request in bytes 8 to 15, and then the fixed argument
/// and the payload, to the end. Reading the header as a whole gives the same.
pub proof fn law_notification_on_the_wire<T: Bytes>(message: Notification<T>, code: i32)
    requires
        message.wf(),
        message.header() == notification_header(
            code,
            message.arg().len() + total_len(message.payload().parts()),
        ),
    ensures
        ({
            let order = message.order();
            let frame = concat(message.parts());
            let read = fuse_out_header::spec_decode(order, frame);
            let arg = message.arg();
            &&& frame.len() == 16 + arg.len() + concat(message.payload().parts()).len()
            &&& order.value(frame.subrange(0, 4)) == frame.len()
            &&& order.value(frame.subrange(4, 8)) == code as int % 0x1_0000_0000
            &&& order.value(frame.subrange(8, 16)) == 0
            &&& read.len == frame.len()
            &&& read.error == code
            &&& read.unique == 0
            &&& frame.subrange(16, 16 + arg.len() as int) == arg
            &&& frame.subrange(16 + arg.len() as int, frame.len() as int) == concat(
                message.payload().parts(),
            )
        }),
{
    law_notification_frame(message);
    lemma_concat_len(message.payload().parts());
    let frame = concat(message.parts());
    let rest = frame.skip(16);
    law_fuse_out_header_layout(message.order(), frame);
    let n = message.arg().len() as int;
    assert(frame.subrange(16, 16 + n) =~= rest.subrange(0, n));
    assert(rest.subrange(0, n) =~= message.arg());
    assert(frame.subrange(16 + n, frame.len() as int) =~= rest.skip(n));
    assert(rest.skip(n) =~= concat(message.payload().parts()));
}

/// A field of the fixed argument stands 16 bytes later in the frame.
proof fn lemma_arg_field<T: Bytes>(message: Notification<T>, code: i32, at: int, end: int)
    requires
        message.wf(),
        message.header() == notification_header(
            code,
            message.arg().len() + total_len(message.payload().parts()),
        ),
        0 <= at <= end <= message.arg().len(),
    ensures
        concat(message.parts()).subrange(16 + at, 16 + end) == message.arg().subrange(at, end),
{
    law_notification_on_the_wire(message, code);
    let frame = concat(message.parts());
    let arg = message.arg();
    assert(frame.subrange(16, 16 + arg.len() as int).subrange(at, end) =~= frame.subrange(
        16 + at,
        16 + end,
    ));
}

/// The frame of an inode invalidation has code 2 and names no request; the inode, the offset and
/// the length follow.
pub proof fn law_inval_inode_on_the_wire(
    message: Notification<()>,
    ino: u64,
    off: i64,
    len: i64,
)
    requires
        message.wf(),
        message.header() == notification_header(FUSE_NOTIFY_INVAL_INODE, 24),
        message.arg() == (fuse_notify_inval_inode_out { ino, off, len }).spec_bytes(message.order()),
    ensures
        ({
            let order = message.order();
            let frame = concat(message.parts());
            &&& frame.len() == 40
            &&& order.value(frame.subrange(0, 4)) == frame.len()
            &&& order.value(frame.subrange(4, 8)) == 2
            &&& order.value(frame.subrange(8, 16)) == 0
            &&& fuse_out_header::spec_decode(order, frame).error == 2
            &&& fuse_out_header::spec_decode(order, frame).unique == 0
            &&& order.value(frame.subrange(16, 24)) == ino
            &&& order.value(frame.subrange(24, 32)) == off as int % 0x1_0000_0000_0000_0000
            &&& order.value(frame.subrange(32, 40)) == len as int % 0x1_0000_0000_0000_0000
        }),
{
    let order = message.order();
    law_fuse_notify_inval_inode_out_round_trip(
        order,
        fuse_notify_inval_inode_out { ino, off, len },
    );
    law_fuse_notify_inval_inode_out_layout(order, message.arg());
    assert(message.payload().parts() =~= Seq::<Seq<u8>>::empty());
    law_notification_on_the_wire(message, 2);
    lemma_arg_field(message, 2, 0, 8);
    lemma_arg_field(message, 2, 8, 16);
    lemma_arg_field(message, 2, 16, 24);
}

/// The frame of a directory entry invalidation has code 3 and names no request; the directory, the
/// length of the name without its NUL, and the name with it follow.
pub proof fn law_inval_entry_on_the_wire(
    message: Notification<EntryName<'_>>,
    parent: u64,
    name: Seq<u8>,
)
    requires
        message.wf(),
        message.payload().name() == name,
        33 + name.len() <= u32::MAX,
        message.header() == notification_header(FUSE_NOTIFY_INVAL_ENTRY, 17 + name.len()),
        message.arg() == (fuse_notify_inval_entry_out {
            parent,
            namelen: name.len() as u32,
            padding: 0,
        }).spec_bytes(message.order()),
    ensures
        ({
            let order = message.order();
            let frame = concat(message.parts());
            &&& frame.len() == 33 + name.len()
            &&& order.value(frame.subrange(0, 4)) == frame.len()
            &&& order.value(frame.subrange(4, 8)) == 3
            &&& order.value(frame.subrange(8, 16)) == 0
            &&& fuse_out_header::spec_decode(order, frame).error == 3
            &&& fuse_out_header::spec_decode(order, frame).unique == 0
            &&& order.value(frame.subrange(16, 24)) == parent
            &&& order.value(frame.subrange(24, 28)) == name.len()
            &&& order.value(frame.subrange(28, 32)) == 0
            &&& frame.subrange(32, 32 + name.len() as int) == name
            &&& frame[32 + name.len() as int] == 0
        }),
{
    let order = message.order();
    law_fuse_notify_inval_entry_out_round_trip(
        order,
        fuse_notify_inval_entry_out { parent, namelen: name.len() as u32, padding: 0 },
    );
    law_fuse_notify_inval_entry_out_layout(order, message.arg());
    lemma_entry_name(name);
    law_notification_on_the_wire(message, 3);
    lemma_arg_field(message, 3, 0, 8);
    lemma_arg_field(message, 3, 8, 12);
    lemma_arg_field(message, 3, 12, 16);
}

/// The frame of a delete notification has code 6 and names no request; the directory, the inode,
/// the length of the name without its NUL, and the name with it follow.
pub proof fn law_delete_on_the_wire(
    message: Notification<EntryName<'_>>,
    parent: u64,
    child: u64,
    name: Seq<u8>,
)
    requires
        message.wf(),
        message.payload().name() == name,
        41 + name.len() <= u32::MAX,
        message.header() == notification_header(FUSE_NOTIFY_DELETE, 25 + name.len()),
        message.arg() == (fuse_notify_delete_out {
            parent,
            child,
            namelen: name.len() as u32,
            padding: 0,
        }).spec_bytes(message.order()),
    ensures
        ({
            let order = message.order();
            let frame = concat(message.parts());
            &&& frame.len() == 41 + name.len()
            &&& order.value(frame.subrange(0, 4)) == frame.len()
            &&& order.value(frame.subrange(4, 8)) == 6
            &&& order.value(frame.subrange(8, 16)) == 0
            &&& fuse_out_header::spec_decode(order, frame).error == 6
            &&& fuse_out_header::spec_decode(order, frame).unique == 0
            &&& order.value(frame.subrange(16, 24)) == parent
            &&& order.value(frame.subrange(24, 32)) == child
            &&& order.value(frame.subrange(32, 36)) == name.len()
            &&& order.value(frame.subrange(36, 40)) == 0
            &&& frame.subrange(40, 40 + name.len() as int) == name
            &&& frame[40 + name.len() as int] == 0
        }),
{
    let order = message.order();
    law_fuse_notify_delete_out_round_trip(
        order,
        fuse_notify_delete_out { parent, child, namelen: name.len() as u32, padding: 0 },
    );
    law_fuse_notify_delete_out_layout(order, message.arg());
    lemma_entry_name(name);
    law_notification_on_the_wire(message, 6);
    lemma_arg_field(message, 6, 0, 8);
    lemma_arg_field(message, 6, 8, 16);
    lemma_arg_field(message, 6, 16, 20);
    lemma_arg_field(message, 6, 20, 24);
}

/// The frame of a store notification has code 4 and names no request, whatever the size of the
/// data; the inode, the offset, the size of the data and the data follow.
pub proof fn law_store_on_the_wire<T: Bytes>(
    message: Notification<T>,
    ino: u64,
    offset: u64,
    data: T,
)
    requires
        message.wf(),
        message.payload() == data,
        40 + total_len(data.parts()) <= u32::MAX,
        message.header() == notification_header(FUSE_NOTIFY_STORE, 24 + total_len(data.parts())),
        message.arg() == (fuse_notify_store_out {
            nodeid: ino,
            offset,
            size: total_len(data.parts()) as u32,
            padding: 0,
        }).spec_bytes(message.order()),
    ensures
        ({
            let order = message.order();
            let frame = concat(message.parts());
            &&& frame.len() == 40 + concat(data.parts()).len()
            &&& order.value(frame.subrange(0, 4)) == frame.len()
            &&& order.value(frame.subrange(4, 8)) == 4
            &&& order.value(frame.subrange(8, 16)) == 0
            &&& fuse_out_header::spec_decode(order, frame).error == 4
            &&& fuse_out_header::spec_decode(order, frame).unique == 0
            &&& order.value(frame.subrange(16, 24)) == ino
            &&& order.value(frame.subrange(24, 32)) == offset
            &&& order.value(frame.subrange(32, 36)) == concat(data.parts()).len()
            &&& order.value(frame.subrange(36, 40)) == 0
            &&& frame.subrange(40, frame.len() as int) == concat(data.parts())
        }),
{
    let order = message.order();
    law_fuse_notify_store_out_round_trip(
        order,
        fuse_notify_store_out {
            nodeid: ino,
            offset,
            size: total_len(data.parts()) as u32,
            padding: 0,
        },
    );
    law_fuse_notify_store_out_layout(order, message.arg());
    lemma_concat_len(data.parts());
    law_notification_on_the_wire(message, 4);
    lemma_arg_field(message, 4, 0, 8);
    lemma_arg_field(message, 4, 8, 16);
    lemma_arg_field(message, 4, 16, 20);
    lemma_arg_field(message, 4, 20, 24);
}

/// The frame of a retrieve notification has code 5 and names no request; the identifier of the
/// answer, the inode, the offset and the size follow.
pub proof fn law_retrieve_on_the_wire(
    message: Notification<()>,
    notify_unique: u64,
    ino: u64,
    offset: u64,
    size: u32,
)
    requires
        message.wf(),
        message.header() == notification_header(FUSE_NOTIFY_RETRIEVE, 32),
        message.arg() == (fuse_notify_retrieve_out {
            notify_unique,
            nodeid: ino,
            offset,
            size,
            padding: 0,
        }).spec_bytes(message.order()),
    ensures
        ({
            let order = message.order();
            let frame = concat(message.parts());
            &&& frame.len() == 48
            &&& order.value(frame.subrange(0, 4)) == frame.len()
            &&& order.value(frame.subrange(4, 8)) == 5
            &&& order.value(frame.subrange(8, 16)) == 0
            &&& fuse_out_header::spec_decode(order, frame).error == 5
            &&& fuse_out_header::spec_decode(order, frame).unique == 0
            &&& order.value(frame.subrange(16, 24)) == notify_unique
            &&& order.value(frame.subrange(24, 32)) == ino
            &&& order.value(frame.subrange(32, 40)) == offset
            &&& order.value(frame.subrange(40, 44)) == size
            &&& order.value(frame.subrange(44, 48)) == 0
        }),
{
    let order = message.order();
    law_fuse_notify_retrieve_out_round_trip(
        order,
        fuse_notify_retrieve_out {
            notify_unique,
            nodeid: ino,
            offset,
            size,
            padding: 0,
        },
    );
    law_fuse_notify_retrieve_out_layout(order, message.arg());
    assert(message.payload().parts() =~= Seq::<Seq<u8>>::empty());
    law_notification_on_the_wire(message, 5);
    lemma_arg_field(message, 5, 0, 8);
    lemma_arg_field(message, 5, 8, 16);
    lemma_arg_field(message, 5, 16, 24);
    lemma_arg_field(message, 5, 24, 28);
    lemma_arg_field(message, 5, 28, 32);
}

/// The frame of a poll wakeup has code 1 and names no request; the handle follows.
pub proof fn law_poll_wakeup_on_the_wire(message: Notification<()>, kh: u64)
    requires
        message.wf(),
        message.header() == notification_header(FUSE_NOTIFY_POLL, 8),
        message.arg() == (fuse_notify_poll_wakeup_out { kh }).spec_bytes(message.order()),
    ensures
        ({
            let order = message.order();
            let frame = concat(message.parts());
            &&& frame.len() == 24
            &&& order.value(frame.subrange(0, 4)) == frame.len()
            &&& order.value(frame.subrange(4, 8)) == 1
            &&& order.value(frame.subrange(8, 16)) == 0
            &&& fuse_out_header::spec_decode(order, frame).error == 1
            &&& fuse_out_header::spec_decode(order, frame).unique == 0
            &&& order.value(frame.subrange(16, 24)) == kh
        }),
{
    let order = message.order();
    law_fuse_notify_poll_wakeup_out_round_trip(
        order,
        fuse_notify_poll_wakeup_out { kh },
    );
    law_fuse_notify_poll_wakeup_out_layout(order, message.arg());
    assert(message.payload().parts() =~= Seq::<Seq<u8>>::empty());
    law_notification_on_the_wire(message, 1);
    lemma_arg_field(message, 1, 0, 8);
}

} // verus!

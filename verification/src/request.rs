//! Requests of the kernel.

use crate::bytes::Bytes;
use crate::kernel::{fuse_in_header, FUSE_NOTIFY_REPLY, FUSE_WRITE, IN_HEADER_SIZE, WRITE_IN_SIZE};
use crate::reply::Reply;
use crate::wire::ByteOrder;
use vstd::prelude::*;
use vstd::slice::slice_subrange;
#[allow(unused_imports)]
use crate::bytes::{concat, lemma_concat_len, total_len};
#[allow(unused_imports)]
use crate::kernel::fuse_out_header;
#[allow(unused_imports)]
use crate::reply::{law_reply_on_the_wire, reply_header};

verus! {

/// What a read from the kernel gave: `len` bytes, the first of them in the buffer `header`, the
/// others in the buffer `arg`.
pub struct Received {
    pub len: usize,
    pub header: Vec<u8>,
    pub arg: Vec<u8>,
}

/// The values that a [`Received`] stands for.
pub struct Message {
    pub len: nat,
    pub header: Seq<u8>,
    pub arg: Seq<u8>,
}

impl View for Received {
    type V = Message;

    open spec fn view(&self) -> Message {
        Message { len: self.len as nat, header: self.header@, arg: self.arg@ }
    }
}

impl Received {
    /// The header has a buffer of its own, and no more was read than there is room for.
    pub open spec fn wf(&self) -> bool {
        &&& self.header@.len() == IN_HEADER_SIZE
        &&& self.len <= IN_HEADER_SIZE + self.arg@.len()
    }
}

/// The remaining part of request message.
pub struct Data<'op> {
    data: &'op [u8],
}

impl<'op> View for Data<'op> {
    type V = Seq<u8>;

    /// The bytes that have not been read.
    closed spec fn view(&self) -> Seq<u8> {
        self.data@
    }
}

/// The smaller of the two.
pub open spec fn least(a: nat, b: nat) -> nat {
    if a < b {
        a
    } else {
        b
    }
}

impl<'op> Data<'op> {
    /// Data of which nothing has been read.
    pub fn new(data: &'op [u8]) -> (this: Self)
        ensures
            this@ == data@,
    {
        Data { data }
    }

    /// The bytes that have not been read.
    pub fn fill_buf(&self) -> (rest: &'op [u8])
        ensures
            rest@ == self@,
    {
        self.data
    }

    /// Leaves out the first `amt` of the bytes that have not been read.
    pub fn consume(&mut self, amt: usize)
        requires
            amt <= old(self)@.len(),
        ensures
            final(self)@ == old(self)@.skip(amt as int),
    {
        self.data = slice_subrange(self.data, amt, self.data.len());
        assert(self@ =~= old(self)@.skip(amt as int));
    }

    /// Reads as many bytes as there are, or as `buf` has room for.
    pub fn read(&mut self, buf: &mut [u8]) -> (n: usize)
        ensures
            n == least(old(buf)@.len(), old(self)@.len()),
            n <= old(buf)@.len(),
            n < old(buf)@.len() ==> n == old(self)@.len(),
            final(buf)@.len() == old(buf)@.len(),
            final(buf)@ == old(self)@.take(n as int) + old(buf)@.skip(n as int),
            final(self)@ == old(self)@.skip(n as int),
            final(buf)@.take(n as int) + final(self)@ == old(self)@,
    {
        let n: usize = if buf.len() < self.data.len() {
            buf.len()
        } else {
            self.data.len()
        };
        let ghost start = buf@;
        let ghost source = self@;
        let mut i: usize = 0;
        assert(buf@ =~= source.take(0) + start.skip(0));
        while i < n
            invariant
                i <= n <= source.len(),
                n <= start.len(),
                self@ == source,
                self.data@ == source,
                buf@ == source.take(i as int) + start.skip(i as int),
            decreases n - i,
        {
            buf[i] = self.data[i];
            i = i + 1;
            assert(buf@ =~= source.take(i as int) + start.skip(i as int));
        }
        self.consume(n);
        assert(buf@.take(n as int) =~= source.take(n as int));
        assert(source.take(n as int) + source.skip(n as int) =~= source);
        n
    }

    /// Reads into one buffer after the other, as many bytes as there are, or as there is room for.
    pub fn read_vectored(&mut self, bufs: &mut Vec<Vec<u8>>) -> (n: usize)
        ensures
            n == least(total_len(contents(old(bufs)@)), old(self)@.len()),
            n <= total_len(contents(old(bufs)@)),
            n < total_len(contents(old(bufs)@)) ==> n == old(self)@.len(),
            final(bufs)@.len() == old(bufs)@.len(),
            forall|i: int|
                0 <= i < old(bufs)@.len() ==> (#[trigger] final(bufs)@[i])@.len() == old(
                    bufs,
                )@[i]@.len(),
            concat(contents(final(bufs)@)) == old(self)@.take(n as int) + concat(
                contents(old(bufs)@),
            ).skip(n as int),
            final(self)@ == old(self)@.skip(n as int),
    {
        let ghost start = bufs@;
        let ghost source = self@;
        let mut n: usize = 0;
        let mut i: usize = 0;
        proof {
            lemma_concat_len(contents(start));
            assert(contents(start).take(0) =~= Seq::<Seq<u8>>::empty());
            assert(source.skip(0) =~= source);
            assert(source.len() == self.data.len());
        }
        while i < bufs.len()
            invariant
                i <= bufs@.len() == start.len(),
                n <= source.len() <= usize::MAX,
                n == least(total_len(contents(start).take(i as int)), source.len()),
                self@ == source.skip(n as int),
                concat(contents(bufs@).take(i as int)) == source.take(n as int) + concat(
                    contents(start).take(i as int),
                ).skip(n as int),
                forall|j: int|
                    0 <= j < start.len() ==> (#[trigger] bufs@[j])@.len() == start[j]@.len(),
                forall|j: int| i <= j < start.len() ==> (#[trigger] bufs@[j])@ == start[j]@,
            decreases bufs@.len() - i,
        {
            let ghost before = bufs@;
            let ghost m = n;
            let buf: &mut Vec<u8> = &mut bufs[i];
            let got: usize = self.read(buf.as_mut_slice());
            proof {
                let old_i = contents(start).take(i as int);
                let old_n = contents(start).take(i + 1);
                assert(old_n.drop_last() =~= old_i);
                lemma_concat_len(old_i);
                let new_i = contents(bufs@).take(i as int);
                let new_n = contents(bufs@).take(i + 1);
                assert(new_n.drop_last() =~= new_i);
                assert(new_i =~= contents(before).take(i as int));
                assert(source.skip(m as int).take(got as int) =~= source.subrange(
                    m as int,
                    m + got,
                ));
                assert(source.take(m + got) =~= source.take(m as int) + source.subrange(
                    m as int,
                    m + got,
                ));
                assert(source.skip(m as int).skip(got as int) =~= source.skip(m + got));
                assert(concat(new_n) =~= source.take(m + got) + concat(old_n).skip(m + got));
            }
            n = n + got;
            i = i + 1;
        }
        assert(contents(start).take(start.len() as int) =~= contents(start));
        assert(contents(bufs@).take(start.len() as int) =~= contents(bufs@));
        n
    }
}

/// What the buffers hold.
pub open spec fn contents(bufs: Seq<Vec<u8>>) -> Seq<Seq<u8>> {
    Seq::new(bufs.len(), |i: int| bufs[i]@)
}

/// A request, divided into the argument of its operation and the data that follows it.
pub enum OperationBody<'op> {
    /// The operation is none that is to be carried out.
    Unknown,
    /// The argument and the data.
    Encoded(&'op [u8], Data<'op>),
}

/// Whether data follows the argument of the operation.
pub open spec fn carries_data(opcode: u32) -> bool {
    opcode == FUSE_WRITE || opcode == FUSE_NOTIFY_REPLY
}

/// Context about an incoming FUSE request.
pub struct Request {
    order: ByteOrder,
    header: fuse_in_header,
    arg: Vec<u8>,
}

impl Request {
    /// The byte order of the request and of its reply.
    pub closed spec fn order(&self) -> ByteOrder {
        self.order
    }

    /// The header of the request.
    pub closed spec fn spec_header(&self) -> fuse_in_header {
        self.header
    }

    /// Everything after the header.
    pub closed spec fn arg(&self) -> Seq<u8> {
        self.arg@
    }

    /// A request with the given header, and `arg` after it.
    pub fn new(order: ByteOrder, header: fuse_in_header, arg: Vec<u8>) -> (request: Self)
        ensures
            request.order() == order,
            request.spec_header() == header,
            request.arg() == arg@,
    {
        Request { order, header, arg }
    }

    /// Return the unique ID of the request.
    pub fn unique(&self) -> (unique: u64)
        ensures
            unique == self.spec_header().unique,
    {
        self.header.unique
    }

    /// Return the user ID of the calling process.
    pub fn uid(&self) -> (uid: u32)
        ensures
            uid == self.spec_header().uid,
    {
        self.header.uid
    }

    /// Return the group ID of the calling process.
    pub fn gid(&self) -> (gid: u32)
        ensures
            gid == self.spec_header().gid,
    {
        self.header.gid
    }

    /// Return the process ID of the calling process.
    pub fn pid(&self) -> (pid: u32)
        ensures
            pid == self.spec_header().pid,
    {
        self.header.pid
    }

    /// Return the header of the request.
    pub fn header(&self) -> (header: &fuse_in_header)
        ensures
            *header == self.spec_header(),
    {
        &self.header
    }

    /// Whether an operation that carries data has a complete argument.
    pub open spec fn divisible(&self) -> bool {
        carries_data(self.spec_header().opcode) ==> self.arg().len() >= WRITE_IN_SIZE
    }

    /// Whether an operation that carries data has a complete argument.
    pub fn is_divisible(&self) -> (yes: bool)
        ensures
            yes == self.divisible(),
            yes <==> (self.spec_header().opcode != 16 && self.spec_header().opcode != 41)
                || self.arg().len() >= 40,
    {
        !(self.header.opcode == FUSE_WRITE || self.header.opcode == FUSE_NOTIFY_REPLY)
            || self.arg.len() >= WRITE_IN_SIZE
    }

    /// Divides the request into the argument of its operation and the data that follows it.
    ///
    /// Once the session is `exited`, no operation is carried out.
    pub fn operation(&self, exited: bool) -> (body: OperationBody<'_>)
        requires
            !exited ==> self.divisible(),
        ensures
            exited <==> body is Unknown,
            body matches OperationBody::Encoded(arg, data) ==> {
                &&& arg@ + data@ == self.arg()
                &&& carries_data(self.spec_header().opcode) ==> arg@.len() == WRITE_IN_SIZE
                &&& !carries_data(self.spec_header().opcode) ==> data@.len() == 0
                &&& if self.spec_header().opcode == 16 || self.spec_header().opcode == 41 {
                    arg@ == self.arg().take(40) && data@ == self.arg().skip(40)
                } else {
                    arg@ == self.arg() && data@.len() == 0
                }
            },
    {
        if exited {
            return OperationBody::Unknown;
        }
        let all: &[u8] = self.arg.as_slice();
        let at: usize = if self.header.opcode == FUSE_WRITE || self.header.opcode
            == FUSE_NOTIFY_REPLY {
            WRITE_IN_SIZE
        } else {
            all.len()
        };
        let (arg, data) = all.split_at(at);
        assert(arg@ + data@ =~= self.arg());
        assert(at == 40 ==> arg@ =~= self.arg().take(40) && data@ =~= self.arg().skip(40));
        assert(at == self.arg().len() ==> arg@ =~= self.arg());
        OperationBody::Encoded(arg, Data { data })
    }

    /// The reply that carries `arg`.
    pub fn reply<T: Bytes>(&self, arg: T) -> (reply: Reply<T>)
        requires
            arg.wf(),
            16 + total_len(arg.parts()) <= u32::MAX,
        ensures
            reply.wf(),
            reply.order() == self.order(),
            reply.header() == reply_header(
                self.spec_header().unique,
                0,
                total_len(arg.parts()),
            ),
            reply.header().len == 16 + total_len(arg.parts()),
            reply.header().error == 0,
            reply.header().unique == self.spec_header().unique,
            reply.arg() == arg,
    {
        Reply::new(self.order, self.unique(), 0, arg)
    }

    /// The reply that reports the error `code`.
    pub fn reply_error(&self, code: i32) -> (reply: Reply<()>)
        requires
            code != i32::MIN,
        ensures
            reply.wf(),
            reply.order() == self.order(),
            reply.header() == reply_header(self.spec_header().unique, code, 0),
            reply.header().len == 16,
            reply.header().error == -code,
            reply.header().unique == self.spec_header().unique,
    {
        Reply::new(self.order, self.unique(), code, ())
    }
}

/// A read takes as much as there is and as there is room for, and no less.
pub proof fn law_least(room: nat, left: nat)
    ensures
        least(room, left) <= room,
        least(room, left) <= left,
        least(room, left) == room || least(room, left) == left,
{
}

/// The contents of buffers are those of each, in their order.
pub proof fn law_contents(bufs: Seq<Vec<u8>>)
    ensures
        contents(bufs).len() == bufs.len(),
        forall|i: int| 0 <= i < bufs.len() ==> #[trigger] contents(bufs)[i] == bufs[i]@,
{
}

/// A message is seen as what was read, and any is well formed that has 40 bytes for the header and
/// no more bytes than there is room for.
pub proof fn law_message(message: Received)
    ensures
        message.wf() <==> message.header@.len() == 40 && message.len <= 40 + message.arg@.len(),
        message@.len == message.len,
        message@.header == message.header@,
        message@.arg == message.arg@,
{
}

/// Data follows the argument of the operations 16 and 41 and of no other. A request for any other
/// operation can be divided whatever its length, and one for these two where it has 40 bytes.
pub proof fn law_data_operations(request: Request)
    ensures
        ({
            let opcode = request.spec_header().opcode;
            &&& carries_data(opcode) <==> opcode == 16 || opcode == 41
            &&& opcode != 16 && opcode != 41 ==> request.divisible()
            &&& opcode == 16 || opcode == 41 ==> (request.divisible() <==> request.arg().len()
                >= 40)
        }),
{
}

/// How the bytes of a request fall into an argument and data: for the operations 16 and 41 the
/// argument is the first 40 bytes and the data the others; for every other operation all bytes are
/// the argument, and there is no data.
pub proof fn law_division(request: Request, arg: Seq<u8>, data: Seq<u8>)
    requires
        arg + data == request.arg(),
        carries_data(request.spec_header().opcode) ==> arg.len() == WRITE_IN_SIZE,
        !carries_data(request.spec_header().opcode) ==> data.len() == 0,
    ensures
        ({
            let opcode = request.spec_header().opcode;
            let all = request.arg();
            &&& opcode == 16 || opcode == 41 ==> arg == all.take(40) && data == all.skip(40)
            &&& opcode != 16 && opcode != 41 ==> arg == all && data.len() == 0
        }),
{
    assert(arg =~= request.arg().take(arg.len() as int));
    assert(data =~= request.arg().skip(arg.len() as int));
    assert(data.len() == 0 ==> arg =~= request.arg());
}

/// The kernel reads from the reply to a request, whatever the size of its argument, the identifier
/// of that request and no error, and from an error reply the identifier and minus the code.
pub proof fn law_reply_names_request<T: Bytes>(
    request: Request,
    arg: T,
    reply: Reply<T>,
    code: i32,
    refusal: Reply<()>,
)
    requires
        reply.wf(),
        reply.order() == request.order(),
        reply.header() == reply_header(
            request.spec_header().unique,
            0,
            total_len(arg.parts()),
        ),
        reply.arg() == arg,
        16 + total_len(arg.parts()) <= u32::MAX,
        refusal.wf(),
        refusal.order() == request.order(),
        refusal.header() == reply_header(request.spec_header().unique, code, 0),
        code != i32::MIN,
    ensures
        ({
            let order = request.order();
            let frame = concat(reply.parts());
            let refused = concat(refusal.parts());
            &&& frame.len() == 16 + concat(arg.parts()).len()
            &&& order.value(frame.subrange(0, 4)) == frame.len()
            &&& order.value(frame.subrange(4, 8)) == 0
            &&& order.value(frame.subrange(8, 16)) == request.spec_header().unique
            &&& frame.subrange(16, frame.len() as int) == concat(arg.parts())
            &&& fuse_out_header::spec_decode(order, frame).error == 0
            &&& fuse_out_header::spec_decode(order, frame).unique == request.spec_header().unique
            &&& refused.len() == 16
            &&& order.value(refused.subrange(0, 4)) == 16
            &&& order.value(refused.subrange(4, 8)) == -code % 0x1_0000_0000
            &&& order.value(refused.subrange(8, 16)) == request.spec_header().unique
            &&& fuse_out_header::spec_decode(order, refused).error == -code
            &&& fuse_out_header::spec_decode(order, refused).unique
                == request.spec_header().unique
        }),
{
    law_reply_on_the_wire(reply, request.spec_header().unique, 0, arg);
    law_reply_on_the_wire(refusal, request.spec_header().unique, code, refusal.arg());
}

} // verus!

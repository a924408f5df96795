//! Frames that go to the kernel: replies, and how any frame is written.

use crate::bytes::{Bytes, FillWriteBytes};
use crate::error::SessionError;
use crate::kernel::fuse_out_header;
use crate::wire::ByteOrder;
use vstd::prelude::*;
#[allow(unused_imports)]
use crate::bytes::{concat, lemma_concat_add, lemma_concat_len, lemma_one, total_len};
#[allow(unused_imports)]
use crate::kernel::{law_fuse_out_header_layout, law_fuse_out_header_round_trip};

verus! {

/// The answer to one request: a header, and the chunks of the argument.
pub struct Reply<T> {
    order: ByteOrder,
    header: fuse_out_header,
    head: Vec<u8>,
    arg: T,
}

impl<T> Reply<T> {
    /// The byte order of the frame.
    pub closed spec fn order(&self) -> ByteOrder {
        self.order
    }

    /// The header of the frame.
    pub closed spec fn header(&self) -> fuse_out_header {
        self.header
    }

    /// What follows the header.
    pub closed spec fn arg(&self) -> T {
        self.arg
    }

    closed spec fn head(&self) -> Seq<u8> {
        self.head@
    }
}

/// The header of the reply to the request `unique`, with an argument of `size` bytes.
pub open spec fn reply_header(unique: u64, error: i32, size: nat) -> fuse_out_header {
    fuse_out_header { len: (16 + size) as u32, error: (-error) as i32, unique }
}

impl<T: Bytes> Reply<T> {
    /// A reply to the request `unique`: `error` is zero, or the number of an error.
    pub fn new(order: ByteOrder, unique: u64, error: i32, arg: T) -> (reply: Self)
        requires
            arg.wf(),
            16 + total_len(arg.parts()) <= u32::MAX,
            error != i32::MIN,
        ensures
            reply.wf(),
            reply.order() == order,
            reply.header() == reply_header(unique, error, total_len(arg.parts())),
            reply.header().len == 16 + total_len(arg.parts()),
            reply.header().error == -error,
            reply.header().unique == unique,
            reply.arg() == arg,
    {
        let len: u32 = (16 + arg.size()) as u32;
        let header = fuse_out_header { len, error: -error, unique };
        let head: Vec<u8> = header.encode(order);
        Reply { order, header, head, arg }
    }
}

impl<T: Bytes> Bytes for Reply<T> {
    open spec fn parts(&self) -> Seq<Seq<u8>> {
        seq![self.header().spec_bytes(self.order())] + self.arg().parts()
    }

    closed spec fn wf(&self) -> bool {
        &&& self.head() == self.header().spec_bytes(self.order())
        &&& self.header().len == 16 + total_len(self.arg().parts())
        &&& self.arg().wf()
    }

    fn size(&self) -> (size: usize) {
        proof {
            law_reply_frame(*self);
            lemma_concat_len(self.parts());
        }
        self.header.len as usize
    }

    fn count(&self) -> (count: usize) {
        self.arg.count() + 1
    }

    fn fill_bytes<'a>(&'a self, dst: &mut FillWriteBytes<'a>) {
        let ghost before = dst@;
        dst.put(self.head.as_slice());
        self.arg.fill_bytes(dst);
        assert(dst@ =~= before + self.parts());
    }
}

/// The frame of a reply is as long as its header says, starts with that header, and goes on with
/// the argument.
pub proof fn law_reply_frame<T: Bytes>(reply: Reply<T>)
    requires
        reply.wf(),
    ensures
        concat(reply.parts()).len() == reply.header().len,
        total_len(reply.parts()) == reply.header().len,
        fuse_out_header::spec_decode(reply.order(), concat(reply.parts())) == reply.header(),
        concat(reply.parts()).skip(16) == concat(reply.arg().parts()),
{
    let head = reply.header().spec_bytes(reply.order());
    let arg = reply.arg().parts();
    lemma_concat_add(seq![head], arg);
    lemma_one(head);
    lemma_concat_len(arg);
    lemma_header_prefix(reply.order(), reply.header(), concat(arg));
}

/// What the kernel reads from the frame of a reply, whatever the size of the argument: its length
/// in bytes 0 to 3, minus the error in bytes 4 to 7, the request that it answers in bytes 8 to 15,
/// and then the argument, to the end. Reading the header as a whole gives the same.
pub proof fn law_reply_on_the_wire<T: Bytes>(reply: Reply<T>, unique: u64, error: i32, arg: T)
    requires
        reply.wf(),
        reply.header() == reply_header(unique, error, total_len(arg.parts())),
        reply.arg() == arg,
        error != i32::MIN,
        16 + total_len(arg.parts()) <= u32::MAX,
    ensures
        ({
            let order = reply.order();
            let frame = concat(reply.parts());
            let read = fuse_out_header::spec_decode(order, frame);
            &&& frame.len() == 16 + concat(arg.parts()).len()
            &&& order.value(frame.subrange(0, 4)) == frame.len()
            &&& order.value(frame.subrange(4, 8)) == -error % 0x1_0000_0000
            &&& order.value(frame.subrange(8, 16)) == unique
            &&& frame.subrange(16, frame.len() as int) == concat(arg.parts())
            &&& read.len == frame.len()
            &&& read.error == -error
            &&& read.unique == unique
            &&& reply.parts().len() == 1 + arg.parts().len()
            &&& reply.parts().skip(1) == arg.parts()
        }),
{
    law_reply_frame(reply);
    lemma_concat_len(arg.parts());
    let frame = concat(reply.parts());
    law_fuse_out_header_layout(reply.order(), frame);
    assert(frame.skip(16) =~= frame.subrange(16, frame.len() as int));
    assert(reply.parts().skip(1) =~= arg.parts());
}

/// Replies to two requests whose frames are the same answer the same request with the same error
/// and the same bytes.
pub proof fn law_replies_told_apart<T: Bytes, U: Bytes>(a: Reply<T>, b: Reply<U>)
    requires
        a.wf(),
        b.wf(),
        a.order() == b.order(),
        concat(a.parts()) == concat(b.parts()),
    ensures
        a.header().unique == b.header().unique,
        a.header().error == b.header().error,
        concat(a.arg().parts()) == concat(b.arg().parts()),
{
    law_reply_frame(a);
    law_reply_frame(b);
}

/// A frame that starts with the bytes of a header is read as having that header.
pub proof fn lemma_header_prefix(order: ByteOrder, header: fuse_out_header, rest: Seq<u8>)
    ensures
        header.spec_bytes(order).len() == 16,
        fuse_out_header::spec_decode(order, header.spec_bytes(order) + rest) == header,
        (header.spec_bytes(order) + rest).skip(16) == rest,
{
    let head = header.spec_bytes(order);
    let all = head + rest;
    law_fuse_out_header_round_trip(order, header);
    assert(all.subrange(0, 4) =~= head.subrange(0, 4));
    assert(all.subrange(4, 8) =~= head.subrange(4, 8));
    assert(all.subrange(8, 16) =~= head.subrange(8, 16));
    assert(all.skip(16) =~= rest);
}

/// How a frame is written.
pub enum WritePlan<'a> {
    /// There is nothing to write.
    Skip,
    /// The chunks go out in one vectored write.
    Write(Vec<&'a [u8]>),
}

/// The chunks of `bytes`, to be written in one go.
pub fn write_bytes<'a, T: Bytes>(bytes: &'a T) -> (plan: WritePlan<'a>)
    requires
        bytes.wf(),
        bytes.parts().len() <= usize::MAX,
    ensures
        plan is Skip <==> bytes.parts().len() == 0,
        plan matches WritePlan::Write(chunks) ==> chunks@.len() == bytes.parts().len() && forall|
            i: int,
        |
            0 <= i < chunks@.len() ==> (#[trigger] chunks@[i])@ == bytes.parts()[i],
{
    if bytes.count() == 0 {
        return WritePlan::Skip;
    }
    let mut list = FillWriteBytes::new();
    bytes.fill_bytes(&mut list);
    assert(list@ =~= bytes.parts());
    WritePlan::Write(list.into_vec())
}

/// Whether a write that took `written` bytes took all of `bytes`.
pub fn check_written<T: Bytes>(bytes: &T, written: usize) -> (result: Result<(), SessionError>)
    requires
        bytes.wf(),
        total_len(bytes.parts()) <= usize::MAX,
    ensures
        result == if written < total_len(bytes.parts()) {
            Err::<(), SessionError>(SessionError::WriteTooShort)
        } else {
            Ok(())
        },
{
    if written < bytes.size() {
        Err(SessionError::WriteTooShort)
    } else {
        Ok(())
    }
}

} // verus!

//! The kernel's side of the protocol: constants and the structures that cross `/dev/fuse`.
//!
//! Every structure is laid out as C lays it out: the fields in order, each of its own width, with
//! the paddings written out as fields, so there is no byte between two fields.

use crate::wire::{get_uint, put_uint, to_bits32, to_bits64, ByteOrder};
use vstd::prelude::*;
#[allow(unused_imports)]
use crate::wire::{
    bits32, bits64, law_signed32, law_signed64, law_signed_of_number, law_value_of_bytes,
    lemma_bytes_len, lemma_capacities, lemma_value_fits, signed32, signed64,
};

verus! {

/// The major version of the protocol.
pub const FUSE_KERNEL_VERSION: u32 = 7;

/// The newest minor version of the protocol that this library speaks.
pub const FUSE_KERNEL_MINOR_VERSION: u32 = 31;

/// Asynchronous read requests.
pub const FUSE_ASYNC_READ: u32 = 0x00000001;

/// Remote locking of POSIX file locks.
pub const FUSE_POSIX_LOCKS: u32 = 0x00000002;

/// The filesystem handles `O_TRUNC`.
pub const FUSE_ATOMIC_O_TRUNC: u32 = 0x00000008;

/// The filesystem handles lookups of `.` and `..`.
pub const FUSE_EXPORT_SUPPORT: u32 = 0x00000010;

/// Write requests larger than one page.
pub const FUSE_BIG_WRITES: u32 = 0x00000020;

/// The kernel does not apply the umask on create operations.
pub const FUSE_DONT_MASK: u32 = 0x00000040;

/// Remote locking of BSD style file locks.
pub const FUSE_FLOCK_LOCKS: u32 = 0x00000400;

/// Cached pages are invalidated when attributes change.
pub const FUSE_AUTO_INVAL_DATA: u32 = 0x00001000;

/// `readdirplus` requests.
pub const FUSE_DO_READDIRPLUS: u32 = 0x00002000;

/// Adaptive `readdirplus`.
pub const FUSE_READDIRPLUS_AUTO: u32 = 0x00004000;

/// Asynchronous direct I/O submission.
pub const FUSE_ASYNC_DIO: u32 = 0x00008000;

/// Writeback caching of buffered writes.
pub const FUSE_WRITEBACK_CACHE: u32 = 0x00010000;

/// The kernel supports zero-message opens.
pub const FUSE_NO_OPEN_SUPPORT: u32 = 0x00020000;

/// Parallel lookups and readdirs.
pub const FUSE_PARALLEL_DIROPS: u32 = 0x00040000;

/// The filesystem clears setuid and setgid bits.
pub const FUSE_HANDLE_KILLPRIV: u32 = 0x00080000;

/// POSIX access control lists.
pub const FUSE_POSIX_ACL: u32 = 0x00100000;

/// The INIT reply carries `max_pages`.
pub const FUSE_MAX_PAGES: u32 = 0x00400000;

/// The kernel supports zero-message opendirs.
pub const FUSE_NO_OPENDIR_SUPPORT: u32 = 0x01000000;

/// The opcode of a write request.
pub const FUSE_WRITE: u32 = 16;

/// The opcode of the request that opens a session.
pub const FUSE_INIT: u32 = 26;

/// The opcode of the kernel's answer to a retrieve notification.
pub const FUSE_NOTIFY_REPLY: u32 = 41;

/// The code of a poll wakeup notification.
pub const FUSE_NOTIFY_POLL: i32 = 1;

/// The code of an inode invalidation.
pub const FUSE_NOTIFY_INVAL_INODE: i32 = 2;

/// The code of a directory entry invalidation.
pub const FUSE_NOTIFY_INVAL_ENTRY: i32 = 3;

/// The code of a store notification.
pub const FUSE_NOTIFY_STORE: i32 = 4;

/// The code of a retrieve notification.
pub const FUSE_NOTIFY_RETRIEVE: i32 = 5;

/// The code of a delete notification.
pub const FUSE_NOTIFY_DELETE: i32 = 6;

/// The size of [`fuse_in_header`].
pub const IN_HEADER_SIZE: usize = 40;

/// The size of [`fuse_out_header`].
pub const OUT_HEADER_SIZE: usize = 16;

/// The size of [`fuse_init_in`].
pub const INIT_IN_SIZE: usize = 16;

/// The size of [`fuse_init_out`].
pub const INIT_OUT_SIZE: usize = 64;

/// The size of `fuse_write_in`, the fixed part of a write request.
pub const WRITE_IN_SIZE: usize = 40;

/// The numbers by which the kernel knows versions, flags, operations and notifications, and the
/// sizes of the structures.
pub proof fn law_protocol_numbers()
    ensures
        FUSE_KERNEL_VERSION == 7,
        FUSE_KERNEL_MINOR_VERSION == 31,
        FUSE_ASYNC_READ == 0x1,
        FUSE_POSIX_LOCKS == 0x2,
        FUSE_ATOMIC_O_TRUNC == 0x8,
        FUSE_EXPORT_SUPPORT == 0x10,
        FUSE_BIG_WRITES == 0x20,
        FUSE_DONT_MASK == 0x40,
        FUSE_FLOCK_LOCKS == 0x400,
        FUSE_AUTO_INVAL_DATA == 0x1000,
        FUSE_DO_READDIRPLUS == 0x2000,
        FUSE_READDIRPLUS_AUTO == 0x4000,
        FUSE_ASYNC_DIO == 0x8000,
        FUSE_WRITEBACK_CACHE == 0x10000,
        FUSE_NO_OPEN_SUPPORT == 0x20000,
        FUSE_PARALLEL_DIROPS == 0x40000,
        FUSE_HANDLE_KILLPRIV == 0x80000,
        FUSE_POSIX_ACL == 0x100000,
        FUSE_MAX_PAGES == 0x400000,
        FUSE_NO_OPENDIR_SUPPORT == 0x1000000,
        FUSE_WRITE == 16,
        FUSE_INIT == 26,
        FUSE_NOTIFY_REPLY == 41,
        FUSE_NOTIFY_POLL == 1,
        FUSE_NOTIFY_INVAL_INODE == 2,
        FUSE_NOTIFY_INVAL_ENTRY == 3,
        FUSE_NOTIFY_STORE == 4,
        FUSE_NOTIFY_RETRIEVE == 5,
        FUSE_NOTIFY_DELETE == 6,
        IN_HEADER_SIZE == 40,
        OUT_HEADER_SIZE == 16,
        INIT_IN_SIZE == 16,
        INIT_OUT_SIZE == 64,
        WRITE_IN_SIZE == 40,
{
}

/// The header of every request.
#[allow(non_camel_case_types)]
#[derive(Debug, Clone, Copy, PartialEq, Eq, Structural)]
pub struct fuse_in_header {
    pub len: u32,
    pub opcode: u32,
    pub unique: u64,
    pub nodeid: u64,
    pub uid: u32,
    pub gid: u32,
    pub pid: u32,
    pub padding: u32,
}

impl fuse_in_header {
    /// The bytes of this structure, field by field.
    pub open spec fn spec_bytes(self, order: ByteOrder) -> Seq<u8> {
        order.bytes(self.len as nat, 4)
            + order.bytes(self.opcode as nat, 4)
            + order.bytes(self.unique as nat, 8)
            + order.bytes(self.nodeid as nat, 8)
            + order.bytes(self.uid as nat, 4)
            + order.bytes(self.gid as nat, 4)
            + order.bytes(self.pid as nat, 4)
            + order.bytes(self.padding as nat, 4)
    }

    /// The structure whose bytes are the first 40 of `s`.
    pub open spec fn spec_decode(order: ByteOrder, s: Seq<u8>) -> fuse_in_header {
        fuse_in_header {
            len: order.value(s.subrange(0, 4)) as u32,
            opcode: order.value(s.subrange(4, 8)) as u32,
            unique: order.value(s.subrange(8, 16)) as u64,
            nodeid: order.value(s.subrange(16, 24)) as u64,
            uid: order.value(s.subrange(24, 28)) as u32,
            gid: order.value(s.subrange(28, 32)) as u32,
            pid: order.value(s.subrange(32, 36)) as u32,
            padding: order.value(s.subrange(36, 40)) as u32,
        }
    }

    /// Reads the structure from the first 40 bytes of `src`.
    pub fn decode(order: ByteOrder, src: &[u8]) -> (v: fuse_in_header)
        requires
            src@.len() >= 40,
        ensures
            v == fuse_in_header::spec_decode(order, src@),
            v.len == order.value(src@.subrange(0, 4)),
            v.opcode == order.value(src@.subrange(4, 8)),
            v.unique == order.value(src@.subrange(8, 16)),
            v.nodeid == order.value(src@.subrange(16, 24)),
            v.uid == order.value(src@.subrange(24, 28)),
            v.gid == order.value(src@.subrange(28, 32)),
            v.pid == order.value(src@.subrange(32, 36)),
            v.padding == order.value(src@.subrange(36, 40)),
    {
        proof {
            lemma_capacities();
        }
        fuse_in_header {
            len: get_uint(src, order, 0, 4) as u32,
            opcode: get_uint(src, order, 4, 4) as u32,
            unique: get_uint(src, order, 8, 8),
            nodeid: get_uint(src, order, 16, 8),
            uid: get_uint(src, order, 24, 4) as u32,
            gid: get_uint(src, order, 28, 4) as u32,
            pid: get_uint(src, order, 32, 4) as u32,
            padding: get_uint(src, order, 36, 4) as u32,
        }
    }

    /// Writes the structure out.
    pub fn encode(&self, order: ByteOrder) -> (bytes: Vec<u8>)
        ensures
            bytes@ == self.spec_bytes(order),
            bytes@.len() == 40,
    {
        broadcast use lemma_bytes_len;

        let mut dst: Vec<u8> = Vec::new();
        put_uint(&mut dst, order, self.len as u64, 4);
        put_uint(&mut dst, order, self.opcode as u64, 4);
        put_uint(&mut dst, order, self.unique, 8);
        put_uint(&mut dst, order, self.nodeid, 8);
        put_uint(&mut dst, order, self.uid as u64, 4);
        put_uint(&mut dst, order, self.gid as u64, 4);
        put_uint(&mut dst, order, self.pid as u64, 4);
        put_uint(&mut dst, order, self.padding as u64, 4);
        assert(dst@ =~= self.spec_bytes(order));
        dst
    }
}

/// A request header is read as it was written.
pub proof fn law_fuse_in_header_round_trip(order: ByteOrder, v: fuse_in_header)
    ensures
        v.spec_bytes(order).len() == 40,
        fuse_in_header::spec_decode(order, v.spec_bytes(order)) == v,
{
    broadcast use lemma_bytes_len, law_value_of_bytes;

    lemma_capacities();
    let s = v.spec_bytes(order);
    assert(s.subrange(0, 4) =~= order.bytes(v.len as nat, 4));
    assert(s.subrange(4, 8) =~= order.bytes(v.opcode as nat, 4));
    assert(s.subrange(8, 16) =~= order.bytes(v.unique as nat, 8));
    assert(s.subrange(16, 24) =~= order.bytes(v.nodeid as nat, 8));
    assert(s.subrange(24, 28) =~= order.bytes(v.uid as nat, 4));
    assert(s.subrange(28, 32) =~= order.bytes(v.gid as nat, 4));
    assert(s.subrange(32, 36) =~= order.bytes(v.pid as nat, 4));
    assert(s.subrange(36, 40) =~= order.bytes(v.padding as nat, 4));
}

/// Every field of a request header is the integer at its offset.
pub proof fn law_fuse_in_header_layout(order: ByteOrder, s: Seq<u8>)
    requires
        s.len() >= 40,
    ensures
        fuse_in_header::spec_decode(order, s).len == order.value(s.subrange(0, 4)),
        fuse_in_header::spec_decode(order, s).opcode == order.value(s.subrange(4, 8)),
        fuse_in_header::spec_decode(order, s).unique == order.value(s.subrange(8, 16)),
        fuse_in_header::spec_decode(order, s).nodeid == order.value(s.subrange(16, 24)),
        fuse_in_header::spec_decode(order, s).uid == order.value(s.subrange(24, 28)),
        fuse_in_header::spec_decode(order, s).gid == order.value(s.subrange(28, 32)),
        fuse_in_header::spec_decode(order, s).pid == order.value(s.subrange(32, 36)),
        fuse_in_header::spec_decode(order, s).padding == order.value(s.subrange(36, 40)),
{
    lemma_value_fits(order, s.subrange(0, 4));
    lemma_value_fits(order, s.subrange(4, 8));
    lemma_value_fits(order, s.subrange(8, 16));
    lemma_value_fits(order, s.subrange(16, 24));
    lemma_value_fits(order, s.subrange(24, 28));
    lemma_value_fits(order, s.subrange(28, 32));
    lemma_value_fits(order, s.subrange(32, 36));
    lemma_value_fits(order, s.subrange(36, 40));
}

/// The argument of an INIT request.
#[allow(non_camel_case_types)]
#[derive(Debug, Clone, Copy, PartialEq, Eq, Structural)]
pub struct fuse_init_in {
    pub major: u32,
    pub minor: u32,
    pub max_readahead: u32,
    pub flags: u32,
}

impl fuse_init_in {
    /// The bytes of this structure, field by field.
    pub open spec fn spec_bytes(self, order: ByteOrder) -> Seq<u8> {
        order.bytes(self.major as nat, 4)
            + order.bytes(self.minor as nat, 4)
            + order.bytes(self.max_readahead as nat, 4)
            + order.bytes(self.flags as nat, 4)
    }

    /// The structure whose bytes are the first 16 of `s`.
    pub open spec fn spec_decode(order: ByteOrder, s: Seq<u8>) -> fuse_init_in {
        fuse_init_in {
            major: order.value(s.subrange(0, 4)) as u32,
            minor: order.value(s.subrange(4, 8)) as u32,
            max_readahead: order.value(s.subrange(8, 12)) as u32,
            flags: order.value(s.subrange(12, 16)) as u32,
        }
    }

    /// Reads the structure from the first 16 bytes of `src`.
    pub fn decode(order: ByteOrder, src: &[u8]) -> (v: fuse_init_in)
        requires
            src@.len() >= 16,
        ensures
            v == fuse_init_in::spec_decode(order, src@),
            v.major == order.value(src@.subrange(0, 4)),
            v.minor == order.value(src@.subrange(4, 8)),
            v.max_readahead == order.value(src@.subrange(8, 12)),
            v.flags == order.value(src@.subrange(12, 16)),
    {
        proof {
            lemma_capacities();
        }
        fuse_init_in {
            major: get_uint(src, order, 0, 4) as u32,
            minor: get_uint(src, order, 4, 4) as u32,
            max_readahead: get_uint(src, order, 8, 4) as u32,
            flags: get_uint(src, order, 12, 4) as u32,
        }
    }

    /// Writes the structure out.
    pub fn encode(&self, order: ByteOrder) -> (bytes: Vec<u8>)
        ensures
            bytes@ == self.spec_bytes(order),
            bytes@.len() == 16,
    {
        broadcast use lemma_bytes_len;

        let mut dst: Vec<u8> = Vec::new();
        put_uint(&mut dst, order, self.major as u64, 4);
        put_uint(&mut dst, order, self.minor as u64, 4);
        put_uint(&mut dst, order, self.max_readahead as u64, 4);
        put_uint(&mut dst, order, self.flags as u64, 4);
        assert(dst@ =~= self.spec_bytes(order));
        dst
    }
}

/// The argument of an INIT request is read as it was written.
pub proof fn law_fuse_init_in_round_trip(order: ByteOrder, v: fuse_init_in)
    ensures
        v.spec_bytes(order).len() == 16,
        fuse_init_in::spec_decode(order, v.spec_bytes(order)) == v,
{
    broadcast use lemma_bytes_len, law_value_of_bytes;

    lemma_capacities();
    let s = v.spec_bytes(order);
    assert(s.subrange(0, 4) =~= order.bytes(v.major as nat, 4));
    assert(s.subrange(4, 8) =~= order.bytes(v.minor as nat, 4));
    assert(s.subrange(8, 12) =~= order.bytes(v.max_readahead as nat, 4));
    assert(s.subrange(12, 16) =~= order.bytes(v.flags as nat, 4));
}

/// Every field of the argument of an INIT request is the integer at its offset.
pub proof fn law_fuse_init_in_layout(order: ByteOrder, s: Seq<u8>)
    requires
        s.len() >= 16,
    ensures
        fuse_init_in::spec_decode(order, s).major == order.value(s.subrange(0, 4)),
        fuse_init_in::spec_decode(order, s).minor == order.value(s.subrange(4, 8)),
        fuse_init_in::spec_decode(order, s).max_readahead == order.value(s.subrange(8, 12)),
        fuse_init_in::spec_decode(order, s).flags == order.value(s.subrange(12, 16)),
{
    lemma_value_fits(order, s.subrange(0, 4));
    lemma_value_fits(order, s.subrange(4, 8));
    lemma_value_fits(order, s.subrange(8, 12));
    lemma_value_fits(order, s.subrange(12, 16));
}

/// The header of every reply and notification.
#[allow(non_camel_case_types)]
#[derive(Debug, Clone, Copy, PartialEq, Eq, Structural)]
pub struct fuse_out_header {
    pub len: u32,
    pub error: i32,
    pub unique: u64,
}

impl fuse_out_header {
    /// The bytes of this structure, field by field.
    pub open spec fn spec_bytes(self, order: ByteOrder) -> Seq<u8> {
        order.bytes(self.len as nat, 4)
            + order.bytes(bits32(self.error), 4)
            + order.bytes(self.unique as nat, 8)
    }

    /// The structure whose bytes are the first 16 of `s`.
    pub open spec fn spec_decode(order: ByteOrder, s: Seq<u8>) -> fuse_out_header {
        fuse_out_header {
            len: order.value(s.subrange(0, 4)) as u32,
            error: signed32(order.value(s.subrange(4, 8))),
            unique: order.value(s.subrange(8, 16)) as u64,
        }
    }

    /// Writes the structure out.
    pub fn encode(&self, order: ByteOrder) -> (bytes: Vec<u8>)
        ensures
            bytes@ == self.spec_bytes(order),
            bytes@.len() == 16,
    {
        broadcast use lemma_bytes_len;

        let mut dst: Vec<u8> = Vec::new();
        put_uint(&mut dst, order, self.len as u64, 4);
        put_uint(&mut dst, order, to_bits32(self.error) as u64, 4);
        put_uint(&mut dst, order, self.unique, 8);
        assert(dst@ =~= self.spec_bytes(order));
        dst
    }
}

/// The header of a reply is read as it was written.
pub proof fn law_fuse_out_header_round_trip(order: ByteOrder, v: fuse_out_header)
    ensures
        v.spec_bytes(order).len() == 16,
        fuse_out_header::spec_decode(order, v.spec_bytes(order)) == v,
{
    broadcast use lemma_bytes_len, law_value_of_bytes;

    lemma_capacities();
    law_signed32(v.error);
    let s = v.spec_bytes(order);
    assert(s.subrange(0, 4) =~= order.bytes(v.len as nat, 4));
    assert(s.subrange(4, 8) =~= order.bytes(bits32(v.error), 4));
    assert(s.subrange(8, 16) =~= order.bytes(v.unique as nat, 8));
}

/// Every field of the header of a reply or notification is the integer at its offset, a signed one
/// modulo its range.
pub proof fn law_fuse_out_header_layout(order: ByteOrder, s: Seq<u8>)
    requires
        s.len() >= 16,
    ensures
        fuse_out_header::spec_decode(order, s).len == order.value(s.subrange(0, 4)),
        fuse_out_header::spec_decode(order, s).error as int % 0x1_0000_0000
            == order.value(s.subrange(4, 8)),
        fuse_out_header::spec_decode(order, s).unique == order.value(s.subrange(8, 16)),
{
    lemma_value_fits(order, s.subrange(0, 4));
    lemma_value_fits(order, s.subrange(4, 8));
    law_signed_of_number(order.value(s.subrange(4, 8)));
    lemma_value_fits(order, s.subrange(8, 16));
}

/// The words of `s`, four bytes each.
pub open spec fn words(order: ByteOrder, s: Seq<u32>) -> Seq<u8>
    decreases s.len(),
{
    if s.len() == 0 {
        Seq::empty()
    } else {
        words(order, s.drop_last()) + order.bytes(s.last() as nat, 4)
    }
}

proof fn lemma_words(order: ByteOrder, s: Seq<u32>)
    ensures
        words(order, s).len() == 4 * s.len(),
        forall|i: int|
            0 <= i < s.len() ==> order.value(
                #[trigger] words(order, s).subrange(4 * i, 4 * i + 4),
            ) == s[i],
    decreases s.len(),
{
    broadcast use lemma_bytes_len, law_value_of_bytes;

    if s.len() > 0 {
        let init = s.drop_last();
        let all = words(order, s);
        lemma_words(order, init);
        lemma_capacities();
        assert forall|i: int| 0 <= i < s.len() implies order.value(
            #[trigger] all.subrange(4 * i, 4 * i + 4),
        ) == s[i] by {
            if i < init.len() {
                assert(all.subrange(4 * i, 4 * i + 4) =~= words(order, init).subrange(
                    4 * i,
                    4 * i + 4,
                ));
                assert(init[i] == s[i]);
            } else {
                assert(all.subrange(4 * i, 4 * i + 4) =~= order.bytes(s.last() as nat, 4));
            }
        }
    }
}

/// The argument of the reply to an INIT request.
#[allow(non_camel_case_types)]
#[derive(Debug, Clone, Copy, PartialEq, Eq)]
pub struct fuse_init_out {
    pub major: u32,
    pub minor: u32,
    pub max_readahead: u32,
    pub flags: u32,
    pub max_background: u16,
    pub congestion_threshold: u16,
    pub max_write: u32,
    pub time_gran: u32,
    pub max_pages: u16,
    pub padding: u16,
    pub unused: [u32; 8],
}

impl fuse_init_out {
    /// Whether every reserved field is zero.
    pub open spec fn reserved_zero(self) -> bool {
        &&& self.padding == 0
        &&& forall|i: int| 0 <= i < 8 ==> #[trigger] self.unused@[i] == 0
    }

    /// The bytes of this structure, field by field.
    pub open spec fn spec_bytes(self, order: ByteOrder) -> Seq<u8> {
        order.bytes(self.major as nat, 4) + order.bytes(self.minor as nat, 4) + order.bytes(
            self.max_readahead as nat,
            4,
        ) + order.bytes(self.flags as nat, 4) + order.bytes(self.max_background as nat, 2)
            + order.bytes(self.congestion_threshold as nat, 2) + order.bytes(
            self.max_write as nat,
            4,
        ) + order.bytes(self.time_gran as nat, 4) + order.bytes(self.max_pages as nat, 2)
            + order.bytes(self.padding as nat, 2) + words(order, self.unused@)
    }

    /// Writes the structure out.
    pub fn encode(&self, order: ByteOrder) -> (bytes: Vec<u8>)
        ensures
            bytes@ == self.spec_bytes(order),
            bytes@.len() == 64,
    {
        broadcast use lemma_bytes_len;

        let mut dst: Vec<u8> = Vec::new();
        put_uint(&mut dst, order, self.major as u64, 4);
        put_uint(&mut dst, order, self.minor as u64, 4);
        put_uint(&mut dst, order, self.max_readahead as u64, 4);
        put_uint(&mut dst, order, self.flags as u64, 4);
        put_uint(&mut dst, order, self.max_background as u64, 2);
        put_uint(&mut dst, order, self.congestion_threshold as u64, 2);
        put_uint(&mut dst, order, self.max_write as u64, 4);
        put_uint(&mut dst, order, self.time_gran as u64, 4);
        put_uint(&mut dst, order, self.max_pages as u64, 2);
        put_uint(&mut dst, order, self.padding as u64, 2);
        let ghost fixed = dst@;
        let mut i: usize = 0;
        assert(dst@ =~= fixed + words(order, self.unused@.subrange(0, 0)));
        while i < 8
            invariant
                i <= 8,
                dst@ == fixed + words(order, self.unused@.subrange(0, i as int)),
            decreases 8 - i,
        {
            put_uint(&mut dst, order, self.unused[i] as u64, 4);
            assert(self.unused@.subrange(0, i + 1).drop_last() =~= self.unused@.subrange(
                0,
                i as int,
            ));
            i = i + 1;
            assert(dst@ =~= fixed + words(order, self.unused@.subrange(0, i as int)));
        }
        assert(self.unused@.subrange(0, 8) =~= self.unused@);
        proof {
            lemma_words(order, self.unused@);
        }
        dst
    }
}

impl Default for fuse_init_out {
    fn default() -> (out: fuse_init_out)
        ensures
            out.major == 0,
            out.minor == 0,
            out.max_readahead == 0,
            out.flags == 0,
            out.max_background == 0,
            out.congestion_threshold == 0,
            out.max_write == 0,
            out.time_gran == 0,
            out.max_pages == 0,
            out.reserved_zero(),
    {
        fuse_init_out {
            major: 0,
            minor: 0,
            max_readahead: 0,
            flags: 0,
            max_background: 0,
            congestion_threshold: 0,
            max_write: 0,
            time_gran: 0,
            max_pages: 0,
            padding: 0,
            unused: [0, 0, 0, 0, 0, 0, 0, 0],
        }
    }
}

/// Every field of the INIT reply stands at its offset, so that it is read as it was written.
pub proof fn law_fuse_init_out_layout(order: ByteOrder, v: fuse_init_out)
    ensures
        v.spec_bytes(order).len() == 64,
        order.value(v.spec_bytes(order).subrange(0, 4)) == v.major,
        order.value(v.spec_bytes(order).subrange(4, 8)) == v.minor,
        order.value(v.spec_bytes(order).subrange(8, 12)) == v.max_readahead,
        order.value(v.spec_bytes(order).subrange(12, 16)) == v.flags,
        order.value(v.spec_bytes(order).subrange(16, 18)) == v.max_background,
        order.value(v.spec_bytes(order).subrange(18, 20)) == v.congestion_threshold,
        order.value(v.spec_bytes(order).subrange(20, 24)) == v.max_write,
        order.value(v.spec_bytes(order).subrange(24, 28)) == v.time_gran,
        order.value(v.spec_bytes(order).subrange(28, 30)) == v.max_pages,
        order.value(v.spec_bytes(order).subrange(30, 32)) == v.padding,
        forall|i: int|
            0 <= i < 8 ==> order.value(
                v.spec_bytes(order).subrange(32 + 4 * i, 32 + 4 * i + 4),
            ) == #[trigger] v.unused@[i],
{
    broadcast use lemma_bytes_len, law_value_of_bytes;

    lemma_capacities();
    lemma_words(order, v.unused@);
    let s = v.spec_bytes(order);
    assert(s.subrange(0, 4) =~= order.bytes(v.major as nat, 4));
    assert(s.subrange(4, 8) =~= order.bytes(v.minor as nat, 4));
    assert(s.subrange(8, 12) =~= order.bytes(v.max_readahead as nat, 4));
    assert(s.subrange(12, 16) =~= order.bytes(v.flags as nat, 4));
    assert(s.subrange(16, 18) =~= order.bytes(v.max_background as nat, 2));
    assert(s.subrange(18, 20) =~= order.bytes(v.congestion_threshold as nat, 2));
    assert(s.subrange(20, 24) =~= order.bytes(v.max_write as nat, 4));
    assert(s.subrange(24, 28) =~= order.bytes(v.time_gran as nat, 4));
    assert(s.subrange(28, 30) =~= order.bytes(v.max_pages as nat, 2));
    assert(s.subrange(30, 32) =~= order.bytes(v.padding as nat, 2));
    assert forall|i: int| 0 <= i < 8 implies order.value(
        s.subrange(32 + 4 * i, 32 + 4 * i + 4),
    ) == #[trigger] v.unused@[i] by {
        assert(s.subrange(32 + 4 * i, 32 + 4 * i + 4) =~= words(order, v.unused@).subrange(
            4 * i,
            4 * i + 4,
        ));
    }
}

/// The argument of an inode invalidation.
#[allow(non_camel_case_types)]
#[derive(Debug, Clone, Copy, PartialEq, Eq, Structural)]
pub struct fuse_notify_inval_inode_out {
    pub ino: u64,
    pub off: i64,
    pub len: i64,
}

impl fuse_notify_inval_inode_out {
    /// The bytes of this structure, field by field.
    pub open spec fn spec_bytes(self, order: ByteOrder) -> Seq<u8> {
        order.bytes(self.ino as nat, 8)
            + order.bytes(bits64(self.off), 8)
            + order.bytes(bits64(self.len), 8)
    }

    /// The structure whose bytes are the first 24 of `s`.
    pub open spec fn spec_decode(order: ByteOrder, s: Seq<u8>) -> fuse_notify_inval_inode_out {
        fuse_notify_inval_inode_out {
            ino: order.value(s.subrange(0, 8)) as u64,
            off: signed64(order.value(s.subrange(8, 16))),
            len: signed64(order.value(s.subrange(16, 24))),
        }
    }

    /// Writes the structure out.
    pub fn encode(&self, order: ByteOrder) -> (bytes: Vec<u8>)
        ensures
            bytes@ == self.spec_bytes(order),
            bytes@.len() == 24,
    {
        broadcast use lemma_bytes_len;

        let mut dst: Vec<u8> = Vec::new();
        put_uint(&mut dst, order, self.ino, 8);
        put_uint(&mut dst, order, to_bits64(self.off), 8);
        put_uint(&mut dst, order, to_bits64(self.len), 8);
        assert(dst@ =~= self.spec_bytes(order));
        dst
    }
}

/// The argument of an inode invalidation is read as it was written.
pub proof fn law_fuse_notify_inval_inode_out_round_trip(order: ByteOrder, v: fuse_notify_inval_inode_out)
    ensures
        v.spec_bytes(order).len() == 24,
        fuse_notify_inval_inode_out::spec_decode(order, v.spec_bytes(order)) == v,
{
    broadcast use lemma_bytes_len, law_value_of_bytes;

    lemma_capacities();
    law_signed64(v.off);
    law_signed64(v.len);
    let s = v.spec_bytes(order);
    assert(s.subrange(0, 8) =~= order.bytes(v.ino as nat, 8));
    assert(s.subrange(8, 16) =~= order.bytes(bits64(v.off), 8));
    assert(s.subrange(16, 24) =~= order.bytes(bits64(v.len), 8));
}

/// Every field of the argument of an inode invalidation is the integer at its offset, a signed one
/// modulo its range.
pub proof fn law_fuse_notify_inval_inode_out_layout(order: ByteOrder, s: Seq<u8>)
    requires
        s.len() >= 24,
    ensures
        fuse_notify_inval_inode_out::spec_decode(order, s).ino == order.value(s.subrange(0, 8)),
        fuse_notify_inval_inode_out::spec_decode(order, s).off as int % 0x1_0000_0000_0000_0000
            == order.value(s.subrange(8, 16)),
        fuse_notify_inval_inode_out::spec_decode(order, s).len as int % 0x1_0000_0000_0000_0000
            == order.value(s.subrange(16, 24)),
{
    lemma_value_fits(order, s.subrange(0, 8));
    lemma_value_fits(order, s.subrange(8, 16));
    law_signed_of_number(order.value(s.subrange(8, 16)));
    lemma_value_fits(order, s.subrange(16, 24));
    law_signed_of_number(order.value(s.subrange(16, 24)));
}

/// The argument of a directory entry invalidation.
#[allow(non_camel_case_types)]
#[derive(Debug, Clone, Copy, PartialEq, Eq, Structural)]
pub struct fuse_notify_inval_entry_out {
    pub parent: u64,
    pub namelen: u32,
    pub padding: u32,
}

impl fuse_notify_inval_entry_out {
    /// The bytes of this structure, field by field.
    pub open spec fn spec_bytes(self, order: ByteOrder) -> Seq<u8> {
        order.bytes(self.parent as nat, 8)
            + order.bytes(self.namelen as nat, 4)
            + order.bytes(self.padding as nat, 4)
    }

    /// The structure whose bytes are the first 16 of `s`.
    pub open spec fn spec_decode(order: ByteOrder, s: Seq<u8>) -> fuse_notify_inval_entry_out {
        fuse_notify_inval_entry_out {
            parent: order.value(s.subrange(0, 8)) as u64,
            namelen: order.value(s.subrange(8, 12)) as u32,
            padding: order.value(s.subrange(12, 16)) as u32,
        }
    }

    /// Writes the structure out.
    pub fn encode(&self, order: ByteOrder) -> (bytes: Vec<u8>)
        ensures
            bytes@ == self.spec_bytes(order),
            bytes@.len() == 16,
    {
        broadcast use lemma_bytes_len;

        let mut dst: Vec<u8> = Vec::new();
        put_uint(&mut dst, order, self.parent, 8);
        put_uint(&mut dst, order, self.namelen as u64, 4);
        put_uint(&mut dst, order, self.padding as u64, 4);
        assert(dst@ =~= self.spec_bytes(order));
        dst
    }
}

/// The argument of a directory entry invalidation is read as it was written.
pub proof fn law_fuse_notify_inval_entry_out_round_trip(order: ByteOrder, v: fuse_notify_inval_entry_out)
    ensures
        v.spec_bytes(order).len() == 16,
        fuse_notify_inval_entry_out::spec_decode(order, v.spec_bytes(order)) == v,
{
    broadcast use lemma_bytes_len, law_value_of_bytes;

    lemma_capacities();
    let s = v.spec_bytes(order);
    assert(s.subrange(0, 8) =~= order.bytes(v.parent as nat, 8));
    assert(s.subrange(8, 12) =~= order.bytes(v.namelen as nat, 4));
    assert(s.subrange(12, 16) =~= order.bytes(v.padding as nat, 4));
}

/// Every field of the argument of a directory entry invalidation is the integer at its offset.
pub proof fn law_fuse_notify_inval_entry_out_layout(order: ByteOrder, s: Seq<u8>)
    requires
        s.len() >= 16,
    ensures
        fuse_notify_inval_entry_out::spec_decode(order, s).parent == order.value(s.subrange(0, 8)),
        fuse_notify_inval_entry_out::spec_decode(order, s).namelen
            == order.value(s.subrange(8, 12)),
        fuse_notify_inval_entry_out::spec_decode(order, s).padding
            == order.value(s.subrange(12, 16)),
{
    lemma_value_fits(order, s.subrange(0, 8));
    lemma_value_fits(order, s.subrange(8, 12));
    lemma_value_fits(order, s.subrange(12, 16));
}

/// The argument of a delete notification.
#[allow(non_camel_case_types)]
#[derive(Debug, Clone, Copy, PartialEq, Eq, Structural)]
pub struct fuse_notify_delete_out {
    pub parent: u64,
    pub child: u64,
    pub namelen: u32,
    pub padding: u32,
}

impl fuse_notify_delete_out {
    /// The bytes of this structure, field by field.
    pub open spec fn spec_bytes(self, order: ByteOrder) -> Seq<u8> {
        order.bytes(self.parent as nat, 8)
            + order.bytes(self.child as nat, 8)
            + order.bytes(self.namelen as nat, 4)
            + order.bytes(self.padding as nat, 4)
    }

    /// The structure whose bytes are the first 24 of `s`.
    pub open spec fn spec_decode(order: ByteOrder, s: Seq<u8>) -> fuse_notify_delete_out {
        fuse_notify_delete_out {
            parent: order.value(s.subrange(0, 8)) as u64,
            child: order.value(s.subrange(8, 16)) as u64,
            namelen: order.value(s.subrange(16, 20)) as u32,
            padding: order.value(s.subrange(20, 24)) as u32,
        }
    }

    /// Writes the structure out.
    pub fn encode(&self, order: ByteOrder) -> (bytes: Vec<u8>)
        ensures
            bytes@ == self.spec_bytes(order),
            bytes@.len() == 24,
    {
        broadcast use lemma_bytes_len;

        let mut dst: Vec<u8> = Vec::new();
        put_uint(&mut dst, order, self.parent, 8);
        put_uint(&mut dst, order, self.child, 8);
        put_uint(&mut dst, order, self.namelen as u64, 4);
        put_uint(&mut dst, order, self.padding as u64, 4);
        assert(dst@ =~= self.spec_bytes(order));
        dst
    }
}

/// The argument of a delete notification is read as it was written.
pub proof fn law_fuse_notify_delete_out_round_trip(order: ByteOrder, v: fuse_notify_delete_out)
    ensures
        v.spec_bytes(order).len() == 24,
        fuse_notify_delete_out::spec_decode(order, v.spec_bytes(order)) == v,
{
    broadcast use lemma_bytes_len, law_value_of_bytes;

    lemma_capacities();
    let s = v.spec_bytes(order);
    assert(s.subrange(0, 8) =~= order.bytes(v.parent as nat, 8));
    assert(s.subrange(8, 16) =~= order.bytes(v.child as nat, 8));
    assert(s.subrange(16, 20) =~= order.bytes(v.namelen as nat, 4));
    assert(s.subrange(20, 24) =~= order.bytes(v.padding as nat, 4));
}

/// Every field of the argument of a delete notification is the integer at its offset.
pub proof fn law_fuse_notify_delete_out_layout(order: ByteOrder, s: Seq<u8>)
    requires
        s.len() >= 24,
    ensures
        fuse_notify_delete_out::spec_decode(order, s).parent == order.value(s.subrange(0, 8)),
        fuse_notify_delete_out::spec_decode(order, s).child == order.value(s.subrange(8, 16)),
        fuse_notify_delete_out::spec_decode(order, s).namelen == order.value(s.subrange(16, 20)),
        fuse_notify_delete_out::spec_decode(order, s).padding == order.value(s.subrange(20, 24)),
{
    lemma_value_fits(order, s.subrange(0, 8));
    lemma_value_fits(order, s.subrange(8, 16));
    lemma_value_fits(order, s.subrange(16, 20));
    lemma_value_fits(order, s.subrange(20, 24));
}

/// The argument of a store notification.
#[allow(non_camel_case_types)]
#[derive(Debug, Clone, Copy, PartialEq, Eq, Structural)]
pub struct fuse_notify_store_out {
    pub nodeid: u64,
    pub offset: u64,
    pub size: u32,
    pub padding: u32,
}

impl fuse_notify_store_out {
    /// The bytes of this structure, field by field.
    pub open spec fn spec_bytes(self, order: ByteOrder) -> Seq<u8> {
        order.bytes(self.nodeid as nat, 8)
            + order.bytes(self.offset as nat, 8)
            + order.bytes(self.size as nat, 4)
            + order.bytes(self.padding as nat, 4)
    }

    /// The structure whose bytes are the first 24 of `s`.
    pub open spec fn spec_decode(order: ByteOrder, s: Seq<u8>) -> fuse_notify_store_out {
        fuse_notify_store_out {
            nodeid: order.value(s.subrange(0, 8)) as u64,
            offset: order.value(s.subrange(8, 16)) as u64,
            size: order.value(s.subrange(16, 20)) as u32,
            padding: order.value(s.subrange(20, 24)) as u32,
        }
    }

    /// Writes the structure out.
    pub fn encode(&self, order: ByteOrder) -> (bytes: Vec<u8>)
        ensures
            bytes@ == self.spec_bytes(order),
            bytes@.len() == 24,
    {
        broadcast use lemma_bytes_len;

        let mut dst: Vec<u8> = Vec::new();
        put_uint(&mut dst, order, self.nodeid, 8);
        put_uint(&mut dst, order, self.offset, 8);
        put_uint(&mut dst, order, self.size as u64, 4);
        put_uint(&mut dst, order, self.padding as u64, 4);
        assert(dst@ =~= self.spec_bytes(order));
        dst
    }
}

/// The argument of a store notification is read as it was written.
pub proof fn law_fuse_notify_store_out_round_trip(order: ByteOrder, v: fuse_notify_store_out)
    ensures
        v.spec_bytes(order).len() == 24,
        fuse_notify_store_out::spec_decode(order, v.spec_bytes(order)) == v,
{
    broadcast use lemma_bytes_len, law_value_of_bytes;

    lemma_capacities();
    let s = v.spec_bytes(order);
    assert(s.subrange(0, 8) =~= order.bytes(v.nodeid as nat, 8));
    assert(s.subrange(8, 16) =~= order.bytes(v.offset as nat, 8));
    assert(s.subrange(16, 20) =~= order.bytes(v.size as nat, 4));
    assert(s.subrange(20, 24) =~= order.bytes(v.padding as nat, 4));
}

/// Every field of the argument of a store notification is the integer at its offset.
pub proof fn law_fuse_notify_store_out_layout(order: ByteOrder, s: Seq<u8>)
    requires
        s.len() >= 24,
    ensures
        fuse_notify_store_out::spec_decode(order, s).nodeid == order.value(s.subrange(0, 8)),
        fuse_notify_store_out::spec_decode(order, s).offset == order.value(s.subrange(8, 16)),
        fuse_notify_store_out::spec_decode(order, s).size == order.value(s.subrange(16, 20)),
        fuse_notify_store_out::spec_decode(order, s).padding == order.value(s.subrange(20, 24)),
{
    lemma_value_fits(order, s.subrange(0, 8));
    lemma_value_fits(order, s.subrange(8, 16));
    lemma_value_fits(order, s.subrange(16, 20));
    lemma_value_fits(order, s.subrange(20, 24));
}

/// The argument of a retrieve notification.
#[allow(non_camel_case_types)]
#[derive(Debug, Clone, Copy, PartialEq, Eq, Structural)]
pub struct fuse_notify_retrieve_out {
    pub notify_unique: u64,
    pub nodeid: u64,
    pub offset: u64,
    pub size: u32,
    pub padding: u32,
}

impl fuse_notify_retrieve_out {
    /// The bytes of this structure, field by field.
    pub open spec fn spec_bytes(self, order: ByteOrder) -> Seq<u8> {
        order.bytes(self.notify_unique as nat, 8)
            + order.bytes(self.nodeid as nat, 8)
            + order.bytes(self.offset as nat, 8)
            + order.bytes(self.size as nat, 4)
            + order.bytes(self.padding as nat, 4)
    }

    /// The structure whose bytes are the first 32 of `s`.
    pub open spec fn spec_decode(order: ByteOrder, s: Seq<u8>) -> fuse_notify_retrieve_out {
        fuse_notify_retrieve_out {
            notify_unique: order.value(s.subrange(0, 8)) as u64,
            nodeid: order.value(s.subrange(8, 16)) as u64,
            offset: order.value(s.subrange(16, 24)) as u64,
            size: order.value(s.subrange(24, 28)) as u32,
            padding: order.value(s.subrange(28, 32)) as u32,
        }
    }

    /// Writes the structure out.
    pub fn encode(&self, order: ByteOrder) -> (bytes: Vec<u8>)
        ensures
            bytes@ == self.spec_bytes(order),
            bytes@.len() == 32,
    {
        broadcast use lemma_bytes_len;

        let mut dst: Vec<u8> = Vec::new();
        put_uint(&mut dst, order, self.notify_unique, 8);
        put_uint(&mut dst, order, self.nodeid, 8);
        put_uint(&mut dst, order, self.offset, 8);
        put_uint(&mut dst, order, self.size as u64, 4);
        put_uint(&mut dst, order, self.padding as u64, 4);
        assert(dst@ =~= self.spec_bytes(order));
        dst
    }
}

/// The argument of a retrieve notification is read as it was written.
pub proof fn law_fuse_notify_retrieve_out_round_trip(order: ByteOrder, v: fuse_notify_retrieve_out)
    ensures
        v.spec_bytes(order).len() == 32,
        fuse_notify_retrieve_out::spec_decode(order, v.spec_bytes(order)) == v,
{
    broadcast use lemma_bytes_len, law_value_of_bytes;

    lemma_capacities();
    let s = v.spec_bytes(order);
    assert(s.subrange(0, 8) =~= order.bytes(v.notify_unique as nat, 8));
    assert(s.subrange(8, 16) =~= order.bytes(v.nodeid as nat, 8));
    assert(s.subrange(16, 24) =~= order.bytes(v.offset as nat, 8));
    assert(s.subrange(24, 28) =~= order.bytes(v.size as nat, 4));
    assert(s.subrange(28, 32) =~= order.bytes(v.padding as nat, 4));
}

/// Every field of the argument of a retrieve notification is the integer at its offset.
pub proof fn law_fuse_notify_retrieve_out_layout(order: ByteOrder, s: Seq<u8>)
    requires
        s.len() >= 32,
    ensures
        fuse_notify_retrieve_out::spec_decode(order, s).notify_unique
            == order.value(s.subrange(0, 8)),
        fuse_notify_retrieve_out::spec_decode(order, s).nodeid == order.value(s.subrange(8, 16)),
        fuse_notify_retrieve_out::spec_decode(order, s).offset == order.value(s.subrange(16, 24)),
        fuse_notify_retrieve_out::spec_decode(order, s).size == order.value(s.subrange(24, 28)),
        fuse_notify_retrieve_out::spec_decode(order, s).padding == order.value(s.subrange(28, 32)),
{
    lemma_value_fits(order, s.subrange(0, 8));
    lemma_value_fits(order, s.subrange(8, 16));
    lemma_value_fits(order, s.subrange(16, 24));
    lemma_value_fits(order, s.subrange(24, 28));
    lemma_value_fits(order, s.subrange(28, 32));
}

/// The argument of a poll wakeup notification.
#[allow(non_camel_case_types)]
#[derive(Debug, Clone, Copy, PartialEq, Eq, Structural)]
pub struct fuse_notify_poll_wakeup_out {
    pub kh: u64,
}

impl fuse_notify_poll_wakeup_out {
    /// The bytes of this structure, field by field.
    pub open spec fn spec_bytes(self, order: ByteOrder) -> Seq<u8> {
        order.bytes(self.kh as nat, 8)
    }

    /// The structure whose bytes are the first 8 of `s`.
    pub open spec fn spec_decode(order: ByteOrder, s: Seq<u8>) -> fuse_notify_poll_wakeup_out {
        fuse_notify_poll_wakeup_out {
            kh: order.value(s.subrange(0, 8)) as u64,
        }
    }

    /// Writes the structure out.
    pub fn encode(&self, order: ByteOrder) -> (bytes: Vec<u8>)
        ensures
            bytes@ == self.spec_bytes(order),
            bytes@.len() == 8,
    {
        broadcast use lemma_bytes_len;

        let mut dst: Vec<u8> = Vec::new();
        put_uint(&mut dst, order, self.kh, 8);
        assert(dst@ =~= self.spec_bytes(order));
        dst
    }
}

/// The argument of a poll wakeup notification is read as it was written.
pub proof fn law_fuse_notify_poll_wakeup_out_round_trip(order: ByteOrder, v: fuse_notify_poll_wakeup_out)
    ensures
        v.spec_bytes(order).len() == 8,
        fuse_notify_poll_wakeup_out::spec_decode(order, v.spec_bytes(order)) == v,
{
    broadcast use lemma_bytes_len, law_value_of_bytes;

    lemma_capacities();
    let s = v.spec_bytes(order);
    assert(s.subrange(0, 8) =~= order.bytes(v.kh as nat, 8));
}

/// Every field of the argument of a poll wakeup is the integer at its offset.
pub proof fn law_fuse_notify_poll_wakeup_out_layout(order: ByteOrder, s: Seq<u8>)
    requires
        s.len() >= 8,
    ensures
        fuse_notify_poll_wakeup_out::spec_decode(order, s).kh == order.value(s.subrange(0, 8)),
{
    lemma_value_fits(order, s.subrange(0, 8));
}

} // verus!

//! What the protocol takes from the machine: byte order, page size and error numbers.

use crate::wire::ByteOrder;
use vstd::prelude::*;
use zerocopy::AsBytes;
#[allow(unused_imports)]
use crate::wire::digits;

verus! {

/// The byte order of the hardware.
pub open spec fn native_order() -> ByteOrder {
    match vstd::endian::endianness() {
        vstd::endian::Endian::Little => ByteOrder::Little,
        vstd::endian::Endian::Big => ByteOrder::Big,
    }
}

/// The bytes that `zerocopy::AsBytes::as_bytes` gives for a `u16`.
///
/// `as_bytes` is the value's own memory. What is claimed is that this memory holds the two bytes
/// of the integer in the order of the hardware.
#[verifier::external_body]
fn native_bytes(value: u16) -> (bytes: Vec<u8>)
    ensures
        bytes@ == native_order().bytes(value as nat, 2),
{
    value.as_bytes().to_vec()
}

/// The constant `libc::EIO`, which is 5 on every Linux target.
#[verifier::external_body]
pub(crate) fn eio() -> (code: i32)
    ensures
        code == 5,
{
    libc::EIO
}

/// The constant `libc::ENOENT`, which is 2 on every Linux target.
#[verifier::external_body]
pub(crate) fn enoent() -> (code: i32)
    ensures
        code == 2,
{
    libc::ENOENT
}

/// The constant `libc::ENODEV`, which is 19 on every Linux target.
#[verifier::external_body]
pub(crate) fn enodev() -> (code: i32)
    ensures
        code == 19,
{
    libc::ENODEV
}

/// The constant `libc::EPROTO`, which is 86 on the SPARC targets of Linux and 71 on the others.
#[verifier::external_body]
fn eproto() -> (code: i32)
    ensures
        code == 71 || code == 86,
{
    libc::EPROTO
}

impl ByteOrder {
    /// The order in which `probe` holds the number one, if it holds it at all.
    pub fn detect(probe: &[u8]) -> (order: Option<ByteOrder>)
        ensures
            order == Some(ByteOrder::Little) <==> probe@ == ByteOrder::Little.bytes(1, 2),
            order == Some(ByteOrder::Big) <==> probe@ == ByteOrder::Big.bytes(1, 2),
            order == Some(ByteOrder::Little) <==> probe@ == seq![1u8, 0u8],
            order == Some(ByteOrder::Big) <==> probe@ == seq![0u8, 1u8],
    {
        proof {
            reveal_with_fuel(digits, 3);
            assert(ByteOrder::Little.bytes(1, 2) =~= seq![1u8, 0u8]);
            assert(ByteOrder::Big.bytes(1, 2) =~= seq![0u8, 1u8]);
        }
        if probe.len() != 2 {
            None
        } else if probe[0] == 1 && probe[1] == 0 {
            assert(probe@ =~= seq![1u8, 0u8]);
            Some(ByteOrder::Little)
        } else if probe[0] == 0 && probe[1] == 1 {
            assert(probe@ =~= seq![0u8, 1u8]);
            Some(ByteOrder::Big)
        } else {
            None
        }
    }
}

/// The facts about the machine that the protocol depends on.
#[derive(Debug, Clone, Copy, PartialEq, Eq, Structural)]
pub struct Host {
    /// The order of the bytes of every integer in a frame.
    pub order: ByteOrder,
    /// The size of a memory page in bytes.
    pub page_size: u32,
    /// The error number that answers an unsupported protocol version.
    pub eproto: i32,
}

impl Host {
    /// Pages are not empty and error numbers are positive.
    pub open spec fn wf(self) -> bool {
        &&& self.page_size > 0
        &&& self.eproto > 0
    }

    /// The machine that this runs on, whose pages have `page_size` bytes.
    ///
    /// The contract leaves open which of the two error numbers the C library of the target has.
    pub fn current(page_size: u32) -> (host: Host)
        requires
            page_size > 0,
        ensures
            host.wf(),
            host.order == native_order(),
            host.page_size == page_size,
            host.eproto == 71 || host.eproto == 86,
    {
        let probe: Vec<u8> = native_bytes(1);
        let order: ByteOrder = match ByteOrder::detect(probe.as_slice()) {
            Some(order) => order,
            None => ByteOrder::Big,
        };
        Host { order, page_size, eproto: eproto() }
    }
}

/// The native order is the one that the hardware has.
pub proof fn law_native_order()
    ensures
        native_order() is Little <==> vstd::endian::endianness() is Little,
        native_order() is Big <==> vstd::endian::endianness() is Big,
{
}

/// Any size of a page and any error number is in order but zero and negative ones.
pub proof fn law_host(host: Host)
    ensures
        host.wf() <==> host.page_size >= 1 && host.eproto >= 1,
{
}

} // verus!

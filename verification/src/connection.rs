//! What the handshake has agreed on.

use crate::config::CapabilityFlags;
use crate::kernel::{
    fuse_init_out, FUSE_MAX_PAGES, FUSE_NO_OPENDIR_SUPPORT, FUSE_NO_OPEN_SUPPORT,
};
use vstd::prelude::*;
#[allow(unused_imports)]
use crate::config::ALL_CAPABILITIES;

verus! {

/// The room for headers in the buffer of a request.
pub const BUFFER_HEADER_SIZE: usize = 0x1000;

/// Information about the connection associated with a session.
#[derive(Clone, Copy)]
pub struct ConnectionInfo {
    out: fuse_init_out,
    bufsize: usize,
}

impl ConnectionInfo {
    /// The values that were agreed on.
    pub closed spec fn out(&self) -> fuse_init_out {
        self.out
    }

    /// The size of the largest request.
    pub closed spec fn spec_bufsize(&self) -> usize {
        self.bufsize
    }

    /// The buffer has room for a header and for the data of a write request.
    pub open spec fn wf(&self) -> bool {
        self.spec_bufsize() == BUFFER_HEADER_SIZE + self.out().max_write
    }

    /// The information on a connection with the values `out`.
    pub fn new(out: fuse_init_out) -> (info: Self)
        requires
            BUFFER_HEADER_SIZE + out.max_write <= usize::MAX,
        ensures
            info.wf(),
            info.out() == out,
            info.spec_bufsize() == 0x1000 + out.max_write,
    {
        ConnectionInfo { out, bufsize: BUFFER_HEADER_SIZE + out.max_write as usize }
    }

    /// Returns the major version of the protocol.
    pub fn proto_major(&self) -> (major: u32)
        ensures
            major == self.out().major,
    {
        self.out.major
    }

    /// Returns the minor version of the protocol.
    pub fn proto_minor(&self) -> (minor: u32)
        ensures
            minor == self.out().minor,
    {
        self.out.minor
    }

    /// Return a set of capability flags sent to the kernel driver.
    pub fn flags(&self) -> (flags: CapabilityFlags)
        ensures
            flags.wf(),
            flags@ == self.out().flags & ALL_CAPABILITIES,
    {
        CapabilityFlags::from_bits_truncate(self.out.flags)
    }

    /// Return whether the kernel supports for zero-message opens.
    ///
    /// When the returned value is `true`, the kernel treat an `ENOSYS`
    /// error for a `FUSE_OPEN` request as successful and does not send
    /// subsequent `open` requests.  Otherwise, the filesystem should
    /// implement the handler for `open` requests appropriately.
    pub fn no_open_support(&self) -> (yes: bool)
        ensures
            yes <==> self.out().flags & FUSE_NO_OPEN_SUPPORT != 0,
    {
        self.out.flags & FUSE_NO_OPEN_SUPPORT != 0
    }

    /// Return whether the kernel supports for zero-message opendirs.
    ///
    /// See the documentation of `no_open_support` for details.
    pub fn no_opendir_support(&self) -> (yes: bool)
        ensures
            yes <==> self.out().flags & FUSE_NO_OPENDIR_SUPPORT != 0,
    {
        self.out.flags & FUSE_NO_OPENDIR_SUPPORT != 0
    }

    /// Returns the maximum readahead.
    pub fn max_readahead(&self) -> (value: u32)
        ensures
            value == self.out().max_readahead,
    {
        self.out.max_readahead
    }

    /// Returns the maximum size of the write buffer.
    pub fn max_write(&self) -> (value: u32)
        ensures
            value == self.out().max_write,
    {
        self.out.max_write
    }

    /// Returns the maximum number of pending background requests.
    pub fn max_background(&self) -> (value: u16)
        ensures
            value == self.out().max_background,
    {
        self.out.max_background
    }

    /// Returns the number of pending background requests that counts as congestion.
    pub fn congestion_threshold(&self) -> (value: u16)
        ensures
            value == self.out().congestion_threshold,
    {
        self.out.congestion_threshold
    }

    /// Returns the timestamp resolution in nanoseconds.
    pub fn time_gran(&self) -> (value: u32)
        ensures
            value == self.out().time_gran,
    {
        self.out.time_gran
    }

    /// Returns the maximum number of pages in a request, where the kernel goes by it.
    pub fn max_pages(&self) -> (pages: Option<u16>)
        ensures
            pages == if self.out().flags & FUSE_MAX_PAGES != 0 {
                Some(self.out().max_pages)
            } else {
                None
            },
    {
        if self.out.flags & FUSE_MAX_PAGES != 0 {
            Some(self.out.max_pages)
        } else {
            None
        }
    }

    /// Returns the size of the largest request.
    pub fn bufsize(&self) -> (size: usize)
        ensures
            size == self.spec_bufsize(),
    {
        self.bufsize
    }
}

/// The buffer of a request has room for the data of a write request and for 4096 bytes more.
pub proof fn law_bufsize(info: ConnectionInfo)
    ensures
        info.wf() <==> info.spec_bufsize() == info.out().max_write + 4096,
{
}

} // verus!

//! Filesystem abstraction.

use crate::kernel::fuse_in_header;
use vstd::prelude::*;

verus! {

/// Information about FUSE request.
pub trait Request: Send + Sync {
    /// The header that the information is taken from.
    spec fn origin(&self) -> fuse_in_header;

    /// Return the unique ID of the request.
    fn unique(&self) -> (unique: u64)
        ensures
            unique == self.origin().unique,
    ;

    /// Return the user ID of the calling process.
    fn uid(&self) -> (uid: u32)
        ensures
            uid == self.origin().uid,
    ;

    /// Return the group ID of the calling process.
    fn gid(&self) -> (gid: u32)
        ensures
            gid == self.origin().gid,
    ;

    /// Return the process ID of the calling process.
    fn pid(&self) -> (pid: u32)
        ensures
            pid == self.origin().pid,
    ;
}

impl Request for crate::request::Request {
    open spec fn origin(&self) -> fuse_in_header {
        self.spec_header()
    }

    fn unique(&self) -> (unique: u64) {
        crate::request::Request::unique(self)
    }

    fn uid(&self) -> (uid: u32) {
        crate::request::Request::uid(self)
    }

    fn gid(&self) -> (gid: u32) {
        crate::request::Request::gid(self)
    }

    fn pid(&self) -> (pid: u32) {
        crate::request::Request::pid(self)
    }
}

/// A request tells of its own header.
pub proof fn law_origin(request: crate::request::Request)
    ensures
        request.origin() == request.spec_header(),
{
}

} // verus!

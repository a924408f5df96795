//! The state of an open session.

use crate::connection::ConnectionInfo;
use crate::error::SessionError;
use crate::host::{enodev, enoent};
use crate::kernel::{fuse_in_header, IN_HEADER_SIZE};
use crate::notify::Notifier;
use crate::request::{Received, Request};
use crate::wire::ByteOrder;
use vstd::prelude::*;

verus! {

/// What came of reading a request from the kernel.
pub enum ReadEvent {
    /// A message was read.
    Received(Received),
    /// The read failed, with an error number if the system gave one.
    Failed(Option<i32>),
}

/// What is to be done about what was read.
pub enum NextRequest {
    /// A request has arrived.
    Request(Request),
    /// The filesystem was unmounted: there are no more requests.
    Closed,
    /// The request was interrupted before it could be read: read again.
    Retry,
    /// The error of the read is an error of the session.
    Failed,
    /// The message is not a request.
    Invalid(SessionError),
}

/// The number of the error that a read gives once the filesystem is unmounted.
pub open spec fn enodev_code() -> i32 {
    19
}

/// The number of the error that a read gives for an interrupted request.
pub open spec fn enoent_code() -> i32 {
    2
}

impl ReadEvent {
    /// A message has the form that a read gives it.
    pub open spec fn wf(self) -> bool {
        self matches ReadEvent::Received(message) ==> message.wf()
    }
}

/// The object containing the contextual information about a FUSE session.
pub struct Session {
    order: ByteOrder,
    conn_info: ConnectionInfo,
    exited: bool,
    notify_unique: u64,
}

impl Session {
    /// The byte order of all frames.
    pub closed spec fn order(&self) -> ByteOrder {
        self.order
    }

    /// What the handshake has agreed on.
    pub closed spec fn info(&self) -> ConnectionInfo {
        self.conn_info
    }

    /// Whether the session has ended.
    pub closed spec fn is_exited(&self) -> bool {
        self.exited
    }

    /// The identifier of the next retrieve notification.
    pub closed spec fn next_notify_unique(&self) -> u64 {
        self.notify_unique
    }

    /// The size of the buffers goes by what was agreed on.
    pub open spec fn wf(&self) -> bool {
        self.info().wf()
    }

    /// The session over a connection whose handshake has agreed on `conn_info`.
    pub fn mount(order: ByteOrder, conn_info: ConnectionInfo) -> (session: Self)
        requires
            conn_info.wf(),
        ensures
            session.wf(),
            session.order() == order,
            session.info() == conn_info,
            !session.is_exited(),
            session.next_notify_unique() == 0,
    {
        Session { order, conn_info, exited: false, notify_unique: 0 }
    }

    /// Returns the information about the FUSE connection.
    pub fn connection_info(&self) -> (info: &ConnectionInfo)
        ensures
            *info == self.info(),
    {
        &self.conn_info
    }

    /// Whether the session has ended.
    pub fn exited(&self) -> (exited: bool)
        ensures
            exited == self.is_exited(),
    {
        self.exited
    }

    /// Ends the session.
    pub fn exit(&mut self)
        ensures
            final(self).is_exited(),
            final(self).order() == old(self).order(),
            final(self).info() == old(self).info(),
            final(self).next_notify_unique() == old(self).next_notify_unique(),
    {
        self.exited = true;
    }

    /// The size of the buffer for what follows the header of a request.
    pub fn arg_buffer_len(&self) -> (len: usize)
        requires
            self.wf(),
        ensures
            len == self.info().spec_bufsize() - IN_HEADER_SIZE,
            len == 4056 + self.info().out().max_write,
    {
        self.conn_info.bufsize() - IN_HEADER_SIZE
    }

    /// Receive an incoming FUSE request from the kernel.
    pub fn next_request(&self, event: ReadEvent) -> (next: NextRequest)
        requires
            event.wf(),
        ensures
            match event {
                ReadEvent::Received(message) => if message.len < IN_HEADER_SIZE {
                    next == NextRequest::Invalid(SessionError::DequeuedTooShort)
                } else {
                    &&& next is Request
                    &&& next->Request_0.order() == self.order()
                    &&& next->Request_0.spec_header() == fuse_in_header::spec_decode(
                        self.order(),
                        message.header@,
                    )
                    &&& next->Request_0.arg() == message.arg@.take(message.len - IN_HEADER_SIZE)
                    &&& next->Request_0.arg() == message.arg@.subrange(0, message.len - 40)
                    &&& next->Request_0.spec_header().opcode == self.order().value(
                        message.header@.subrange(4, 8),
                    )
                    &&& next->Request_0.spec_header().unique == self.order().value(
                        message.header@.subrange(8, 16),
                    )
                    &&& next->Request_0.spec_header().uid == self.order().value(
                        message.header@.subrange(24, 28),
                    )
                    &&& next->Request_0.spec_header().gid == self.order().value(
                        message.header@.subrange(28, 32),
                    )
                    &&& next->Request_0.spec_header().pid == self.order().value(
                        message.header@.subrange(32, 36),
                    )
                },
                ReadEvent::Failed(code) => next == if code == Some(enodev_code()) {
                    NextRequest::Closed
                } else if code == Some(enoent_code()) {
                    NextRequest::Retry
                } else {
                    NextRequest::Failed
                },
            },
            event matches ReadEvent::Received(message) ==> (next is Invalid <==> message.len < 40),
            event matches ReadEvent::Failed(code) ==> {
                &&& next is Closed <==> code == Some(19i32)
                &&& next is Retry <==> code == Some(2i32)
            },
    {
        match event {
            ReadEvent::Received(message) => {
                if message.len < IN_HEADER_SIZE {
                    return NextRequest::Invalid(SessionError::DequeuedTooShort);
                }
                let in_header = fuse_in_header::decode(self.order, message.header.as_slice());
                let mut arg: Vec<u8> = message.arg;
                arg.truncate(message.len - IN_HEADER_SIZE);
                NextRequest::Request(Request::new(self.order, in_header, arg))
            },
            ReadEvent::Failed(code) => match code {
                Some(code) => {
                    if code == enodev() {
                        NextRequest::Closed
                    } else if code == enoent() {
                        NextRequest::Retry
                    } else {
                        NextRequest::Failed
                    }
                },
                None => NextRequest::Failed,
            },
        }
    }

    /// Returns the notifier of the session.
    pub fn notifier(&self) -> (notifier: Notifier)
        ensures
            notifier.order() == self.order(),
    {
        Notifier::new(self.order)
    }

    /// Takes the identifier of the next retrieve notification.
    pub fn take_notify_unique(&mut self) -> (unique: u64)
        ensures
            unique == old(self).next_notify_unique(),
            final(self).next_notify_unique() == (unique + 1) % 0x1_0000_0000_0000_0000,
            final(self).order() == old(self).order(),
            final(self).info() == old(self).info(),
            final(self).is_exited() == old(self).is_exited(),
    {
        let unique: u64 = self.notify_unique;
        self.notify_unique = unique.wrapping_add(1);
        unique
    }
}

/// The identifier that follows `start` when `k` more were taken.
pub open spec fn notify_unique_after(start: u64, k: nat) -> u64
    decreases k,
{
    if k == 0 {
        start
    } else {
        ((notify_unique_after(start, (k - 1) as nat) + 1) % 0x1_0000_0000_0000_0000) as u64
    }
}

/// The identifiers count up from the first, and start over at zero after the last that a `u64`
/// holds.
pub proof fn law_notify_unique_after(start: u64, k: nat)
    ensures
        notify_unique_after(start, k) == (start + k) % 0x1_0000_0000_0000_0000,
    decreases k,
{
    if k > 0 {
        law_notify_unique_after(start, (k - 1) as nat);
    }
}

/// No two of 2^64 retrieve notifications in a row have the same identifier.
pub proof fn law_notify_unique_fresh(start: u64, i: nat, j: nat)
    requires
        i < j < i + 0x1_0000_0000_0000_0000,
    ensures
        notify_unique_after(start, i) != notify_unique_after(start, j),
{
    law_notify_unique_after(start, i);
    law_notify_unique_after(start, j);
}

/// A read that fails with error 19 ends the session, and one that fails with error 2 is to be done
/// again.
pub proof fn law_read_errors()
    ensures
        enodev_code() == 19,
        enoent_code() == 2,
{
}

/// Every failed read is an event that can be handled, and every message in the form of a read.
pub proof fn law_read_event(message: Received, code: Option<i32>)
    ensures
        ReadEvent::Failed(code).wf(),
        ReadEvent::Received(message).wf() <==> message.wf(),
{
}

} // verus!

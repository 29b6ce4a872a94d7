//! The TCP join proxy.
//!
//! The proxy stands between the local client that joins and the remote host.
//! It reads from one side, writes what it read to the other side, and then
//! turns to read from that other side, until a side closes. It looks at no
//! byte of what it carries.

use vstd::prelude::*;

verus! {

/// The most bytes that one read takes.
pub const PUMP_BUFFER_LEN: usize = 256;

/// The milliseconds after which a read gives up.
pub const READ_TIMEOUT_MILLIS: u64 = 100;

/// One of the two connections of the proxy.
#[derive(Clone, Copy, Debug, PartialEq, Eq, Structural)]
pub enum Side {
    /// The local client that joins the game.
    Client,
    /// The remote host of the game.
    Server,
}

/// Why a read or a write failed.
#[derive(Clone, Copy, Debug, PartialEq, Eq, Structural)]
pub enum IoFault {
    /// Nothing can be read now.
    WouldBlock,
    /// Nothing came before the timeout.
    TimedOut,
    /// The peer no longer reads.
    BrokenPipe,
    /// The peer gave the connection up.
    ConnectionAborted,
    /// Anything else.
    Other,
}

/// What happened on a connection.
#[derive(Clone, Copy, Debug, PartialEq, Eq, Structural)]
pub enum ProxyEvent {
    /// The read took this many bytes. None means that the side has closed.
    Read(usize),
    /// The read failed.
    ReadFailed(IoFault),
    /// All the bytes were written.
    Written,
    /// The write failed.
    WriteFailed(IoFault),
}

/// What the proxy wants done next.
#[derive(Clone, Copy, Debug, PartialEq, Eq, Structural)]
pub enum ProxyAction {
    /// Read from this side, `PUMP_BUFFER_LEN` bytes at most.
    Read(Side),
    /// Write the first `len` bytes of what was read to this side, all of
    /// them.
    Write { to: Side, len: usize },
    /// A side has closed: leave the loop.
    Close,
    /// The connection broke in a way that cannot be mended: give up.
    Fail,
}

/// How far the proxy is.
#[derive(Clone, Copy, Debug, PartialEq, Eq, Structural)]
pub enum ProxyPhase {
    /// Bytes are carried.
    Running,
    /// A side has closed.
    Closed,
    /// The proxy gave up.
    Failed,
}

/// The proxy: the side that it reads from at present, and how far it is.
#[derive(Clone, Copy, Debug, PartialEq, Eq, Structural)]
pub struct JoinProxy {
    pub source: Side,
    pub phase: ProxyPhase,
}

impl Side {
    /// The other side.
    pub open spec fn other(self) -> Side {
        match self {
            Side::Client => Side::Server,
            Side::Server => Side::Client,
        }
    }

    /// The other side.
    pub fn opposite(self) -> (side: Side)
        ensures
            side == self.other(),
    {
        match self {
            Side::Client => Side::Server,
            Side::Server => Side::Client,
        }
    }
}

impl IoFault {
    /// A read that failed so has only found nothing to read.
    pub open spec fn is_transient(self) -> bool {
        self == IoFault::WouldBlock || self == IoFault::TimedOut
    }
}

impl ProxyEvent {
    /// The event ends the proxy in the ordinary way: a side has closed. That
    /// is a read of no byte, a read from a connection given up, or a write to
    /// a peer that no longer reads.
    pub open spec fn is_disconnect(self) -> bool {
        self == ProxyEvent::Read(0) || self == ProxyEvent::ReadFailed(IoFault::ConnectionAborted)
            || self == ProxyEvent::WriteFailed(IoFault::BrokenPipe)
    }

    /// After the event the proxy turns to the other side: the write is done,
    /// or there was nothing to read.
    pub open spec fn is_turn(self) -> bool {
        self == ProxyEvent::Written || (self matches ProxyEvent::ReadFailed(fault)
            && fault.is_transient())
    }

    /// The read took some bytes, which are now to be written.
    pub open spec fn is_data(self) -> bool {
        self matches ProxyEvent::Read(len) && len > 0
    }
}

impl JoinProxy {
    /// The proxy as it is first made: it reads from the client.
    pub open spec fn initial() -> JoinProxy {
        JoinProxy { source: Side::Client, phase: ProxyPhase::Running }
    }

    /// The proxy after an event. A proxy that has ended does not change any
    /// more.
    pub open spec fn next(self, event: ProxyEvent) -> JoinProxy {
        if self.phase != ProxyPhase::Running || event.is_data() {
            self
        } else if event.is_turn() {
            JoinProxy { source: self.source.other(), ..self }
        } else if event.is_disconnect() {
            JoinProxy { phase: ProxyPhase::Closed, ..self }
        } else {
            JoinProxy { phase: ProxyPhase::Failed, ..self }
        }
    }

    /// What the proxy asks for in the state it is in, before any event.
    pub open spec fn pending(self) -> ProxyAction {
        match self.phase {
            ProxyPhase::Running => ProxyAction::Read(self.source),
            ProxyPhase::Closed => ProxyAction::Close,
            ProxyPhase::Failed => ProxyAction::Fail,
        }
    }

    /// What the proxy wants done after an event: the bytes just read are
    /// written to the other side, as many as were read; else the proxy reads
    /// on, or ends.
    pub open spec fn reaction(self, event: ProxyEvent) -> ProxyAction {
        match event {
            ProxyEvent::Read(len) => if self.phase == ProxyPhase::Running && len > 0 {
                ProxyAction::Write { to: self.source.other(), len }
            } else {
                self.next(event).pending()
            },
            _ => self.next(event).pending(),
        }
    }

    /// A proxy that is about to read from the client.
    pub fn new() -> (proxy: JoinProxy)
        ensures
            proxy == JoinProxy::initial(),
    {
        JoinProxy { source: Side::Client, phase: ProxyPhase::Running }
    }

    /// The first action of the proxy.
    pub fn begin(&self) -> (action: ProxyAction)
        ensures
            action == self.pending(),
    {
        match self.phase {
            ProxyPhase::Running => ProxyAction::Read(self.source),
            ProxyPhase::Closed => ProxyAction::Close,
            ProxyPhase::Failed => ProxyAction::Fail,
        }
    }

    /// Takes an event in and says what to do next.
    pub fn step(&mut self, event: ProxyEvent) -> (action: ProxyAction)
        ensures
            *final(self) == old(self).next(event),
            action == old(self).reaction(event),
    {
        match self.phase {
            ProxyPhase::Running => {},
            _ => {
                return self.begin();
            },
        }
        match event {
            ProxyEvent::Read(len) => {
                if len > 0 {
                    return ProxyAction::Write { to: self.source.opposite(), len };
                }
                self.phase = ProxyPhase::Closed;
            },
            ProxyEvent::ReadFailed(IoFault::WouldBlock)
            | ProxyEvent::ReadFailed(IoFault::TimedOut)
            | ProxyEvent::Written => {
                self.source = self.source.opposite();
            },
            ProxyEvent::ReadFailed(IoFault::ConnectionAborted)
            | ProxyEvent::WriteFailed(IoFault::BrokenPipe) => {
                self.phase = ProxyPhase::Closed;
            },
            ProxyEvent::ReadFailed(_) | ProxyEvent::WriteFailed(_) => {
                self.phase = ProxyPhase::Failed;
            },
        }
        self.begin()
    }
}

/// The proxy writes nothing but what it has just read: every write follows a
/// read of as many bytes, and goes to the side that was not read from.
pub proof fn lemma_writes_what_was_read(proxy: JoinProxy, event: ProxyEvent)
    ensures
        proxy.reaction(event) matches ProxyAction::Write { to, len } ==> event == ProxyEvent::Read(
            len,
        ) && len > 0 && to == proxy.source.other() && proxy.next(event) == proxy,
        proxy.phase == ProxyPhase::Running && event.is_data() ==> proxy.reaction(event)
            is Write,
{
}

/// The proxy reads from the two sides in turn: after a write, and after a
/// read that found nothing, it reads from the other side.
pub proof fn lemma_sides_alternate(proxy: JoinProxy, event: ProxyEvent)
    requires
        proxy.phase == ProxyPhase::Running,
        event.is_turn(),
    ensures
        proxy.reaction(event) == ProxyAction::Read(proxy.source.other()),
        proxy.next(event).next(event).source == proxy.source,
{
}

/// A proxy that has ended stays as it is and gives the same answer to every
/// event.
pub proof fn lemma_end_is_final(proxy: JoinProxy, event: ProxyEvent)
    requires
        proxy.phase != ProxyPhase::Running,
    ensures
        proxy.next(event) == proxy,
        proxy.reaction(event) == proxy.pending(),
        !(proxy.reaction(event) is Read),
        !(proxy.reaction(event) is Write),
{
}

/// The proxy ends in the ordinary way exactly on a disconnect, and gives up
/// exactly on a failure that is neither a disconnect nor a read that found
/// nothing.
pub proof fn lemma_when_the_proxy_ends(proxy: JoinProxy, event: ProxyEvent)
    requires
        proxy.phase == ProxyPhase::Running,
    ensures
        proxy.reaction(event) is Close <==> event.is_disconnect(),
        proxy.reaction(event) is Fail <==> !event.is_disconnect() && !event.is_turn()
            && !event.is_data(),
{
}

} // verus!

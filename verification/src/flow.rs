//! A flow: a paired inbound/outbound connection carrying bytes both
//! ways, with per-side readiness tracking, half-close and backpressure.
//!
//! The reactor owns the sockets and performs every read and write; this
//! module holds the state and the decisions. Each socket outcome is
//! handed in as an event ([`ReadEvent`], [`WriteEvent`]) and the flow
//! answers with the step to take next ([`ReadStep`], [`WriteStep`]).
//! Bytes read on one side accumulate in that side's ring buffer and are
//! consumed by writes on the peer side, so the buffer contracts carry
//! byte conservation across the whole forwarding path.

use vstd::prelude::*;

use crate::multiplex::{Decision, Multiplexer, MR};
use crate::nexus::OUTMASK;
use crate::ring::RingBuffer;

verus! {

/// The event mask a connection asks the reactor to deliver. Error and
/// hang-up events are always delivered and carry no state here.
pub struct Interest {
    pub readable: bool,
    pub writable: bool,
}

/// One half of a flow: the reactor-level handle of its socket, the
/// registered event mask, half-close and writability flags, and the
/// ring buffer of octets that arrived on this half and have not yet
/// been written out on the peer half.
pub struct Conn {
    /// Handle under which the socket is registered with the reactor.
    pub token: usize,
    /// Event mask currently registered.
    pub interest: Interest,
    /// The remote peer has closed its send side (a read returned zero).
    pub dead: bool,
    /// The socket has accepted writes since the last would-block.
    pub writable: bool,
    /// Octets in transit towards the peer half's socket.
    pub buf: RingBuffer,
}

impl Conn {
    /// Well-formed: the buffer is.
    pub open spec fn wf(&self) -> bool {
        self.buf.wf()
    }

    /// A fresh connection: full event mask, not dead, not yet writable,
    /// empty buffer of the given capacity.
    pub fn new(token: usize, bufsize: usize) -> (r: Conn)
        requires
            bufsize >= 1,
        ensures
            r.wf(),
            r.token == token,
            r.interest.readable && r.interest.writable,
            !r.dead,
            !r.writable,
            r.buf.capacity() == bufsize,
            r.buf.contents() =~= Seq::<u8>::empty(),
            r.buf.delivered() =~= Seq::<u8>::empty(),
    {
        Conn {
            token,
            interest: Interest { readable: true, writable: true },
            dead: false,
            writable: false,
            buf: RingBuffer::new(bufsize),
        }
    }
}

/// Everything of a connection except its buffer is unchanged.
pub open spec fn same_but_buf(pre: Conn, post: Conn) -> bool {
    &&& post.token == pre.token
    &&& post.interest == pre.interest
    &&& post.dead == pre.dead
    &&& post.writable == pre.writable
}

/// The outcome of one non-blocking read on a half's socket.
pub enum ReadEvent {
    /// These bytes arrived.
    Data(Vec<u8>),
    /// The read returned zero bytes: the remote closed its send side.
    Eof,
    /// No data ready.
    WouldBlock,
    /// The read failed.
    Error,
}

/// What the reactor should do after handing a read outcome in.
pub enum ReadStep {
    /// Keep reading this half.
    Continue,
    /// Stop reading for now; the flow stays alive.
    Done,
    /// Dial this backend address and install the outbound half.
    Dial(String),
    /// Bytes were forwarded into this half's buffer: drain the peer
    /// side if it is writable, then ask `after_read`.
    Forwarded,
    /// Readable interest was dropped: re-register this half; the flow
    /// stays alive so pending bytes can still drain.
    Suspend,
    /// Remove the flow.
    Close,
}

/// The outcome of one non-blocking write on a half's socket.
pub enum WriteEvent {
    /// A writable readiness event arrived.
    Ready,
    /// Attempt to drain the peer's buffer into this half's socket.
    Flush,
    /// This many bytes of the last chunk were written.
    Wrote(usize),
    /// The write was not accepted.
    WouldBlock,
    /// The write failed.
    Error,
}

/// What the reactor should do after handing a write outcome in.
pub enum WriteStep {
    /// Nothing to write. If the flag is set, the peer half's readable
    /// interest was just re-armed and it must be re-registered.
    Idle(bool),
    /// Write these bytes to this half's socket, then report the count.
    Data(Vec<u8>),
    /// Keep draining.
    Continue,
    /// Stop draining for now; the flow stays alive.
    Done,
    /// Remove the flow.
    Close,
}

/// A paired inbound/outbound connection. The inbound half exists from
/// accept time; the outbound half is installed once the multiplexer
/// resolves, and is never replaced.
pub struct Flow {
    /// The accepted client connection.
    pub inb: Conn,
    /// The backend connection, absent until the multiplexer resolves.
    pub out: Option<Conn>,
}

impl Flow {
    /// Well-formed: both halves are, the inbound token leaves the high
    /// bit clear, and the outbound half is registered under the inbound
    /// token with the high bit set.
    pub open spec fn wf(&self) -> bool {
        &&& self.inb.wf()
        &&& self.inb.token < OUTMASK
        &&& match self.out {
            Some(o) => o.wf() && o.token == self.inb.token + OUTMASK,
            None => true,
        }
    }

    /// The indicated half: the inbound one, or the outbound one, which
    /// must then be present.
    pub open spec fn side(&self, inbo: bool) -> Conn
        recommends
            !inbo ==> self.out is Some,
    {
        if inbo {
            self.inb
        } else {
            self.out.unwrap()
        }
    }

    /// Whether the flow has served its purpose: both remotes have
    /// closed and no byte is left to deliver on either side.
    pub open spec fn finished(&self) -> bool {
        &&& self.inb.dead
        &&& self.inb.buf.contents().len() == 0
        &&& match self.out {
            Some(o) => o.dead && o.buf.contents().len() == 0,
            None => true,
        }
    }

    /// A new flow around an accepted inbound socket.
    pub fn new(token: usize, bufsize: usize) -> (r: Flow)
        requires
            token < OUTMASK,
            bufsize >= 1,
        ensures
            r.wf(),
            r.inb.token == token,
            r.out is None,
            !r.inb.dead,
            !r.inb.writable,
            r.inb.interest.readable && r.inb.interest.writable,
            r.inb.buf.capacity() == bufsize,
            r.inb.buf.contents() =~= Seq::<u8>::empty(),
            r.inb.buf.delivered() =~= Seq::<u8>::empty(),
    {
        Flow { inb: Conn::new(token, bufsize), out: None }
    }

    /// Install the outbound half under the inbound token with the high
    /// bit set. The caller has dialed the backend and registers the
    /// socket under that handle.
    pub fn set_outbound(&mut self, bufsize: usize)
        requires
            old(self).wf(),
            old(self).out is None,
            bufsize >= 1,
        ensures
            final(self).wf(),
            final(self).inb == old(self).inb,
            final(self).out matches Some(o) && {
                &&& o.token == old(self).inb.token + OUTMASK
                &&& o.interest.readable && o.interest.writable
                &&& !o.dead
                &&& !o.writable
                &&& o.buf.capacity() == bufsize
                &&& o.buf.contents() =~= Seq::<u8>::empty()
                &&& o.buf.delivered() =~= Seq::<u8>::empty()
            },
    {
        let token = self.inb.token + OUTMASK;
        self.out = Some(Conn::new(token, bufsize));
    }

    /// Whether the outbound half has been installed.
    pub fn has_outbound(&self) -> (r: bool)
        ensures
            r == (self.out is Some),
    {
        self.out.is_some()
    }

    /// How many bytes the indicated half can still accept: the room
    /// left in its buffer. The reactor sizes its reads by this.
    pub fn read_capacity(&self, inbo: bool) -> (r: usize)
        requires
            self.wf(),
            !inbo ==> self.out is Some,
        ensures
            r == self.side(inbo).buf.capacity() - self.side(inbo).buf.contents().len(),
    {
        if inbo {
            self.inb.buf.free()
        } else {
            match &self.out {
                Some(o) => o.buf.free(),
                None => 0,
            }
        }
    }

    /// Whether the peer of the indicated half can currently accept
    /// writes, so that freshly read bytes should be drained at once.
    pub fn peer_writable(&self, inbo: bool) -> (r: bool)
        requires
            inbo ==> self.out is Some,
        ensures
            r == self.side(!inbo).writable,
    {
        if inbo {
            match &self.out {
                Some(o) => o.writable,
                None => false,
            }
        } else {
            self.inb.writable
        }
    }

    /// Handle one read outcome on the indicated half.
    ///
    /// Before the outbound half exists, arriving bytes accumulate in
    /// the inbound buffer and the multiplexer is consulted on the whole
    /// prefix: it asks for more, rejects the connection, or names the
    /// backend to dial. A prefix that fills the buffer without a
    /// decision aborts the flow, as does an end of stream or a failure.
    ///
    /// Once both halves exist, bytes go to the reading half's buffer to
    /// be drained by the peer; end of stream marks the half dead and
    /// closes the flow once both halves are dead and drained; a failure
    /// marks the half dead but keeps the flow so pending bytes drain.
    pub fn read<M: Multiplexer>(&mut self, inbo: bool, ev: ReadEvent, multiplexer: &M) -> (r:
        ReadStep)
        requires
            old(self).wf(),
            !inbo ==> old(self).out is Some,
            ev matches ReadEvent::Data(d) ==> 1 <= d@.len() <= old(self).side(inbo).buf.capacity()
                - old(self).side(inbo).buf.contents().len(),
        ensures
            final(self).wf(),
            read_post(multiplexer, *old(self), *final(self), inbo, ev, r),
    {
        match ev {
            ReadEvent::Data(d) => {
                if inbo && self.out.is_none() {
                    self.inb.buf.push(d.as_slice());
                    let prefix = self.inb.buf.peek();
                    let mr = multiplexer.destination(prefix.as_slice());
                    match mr {
                        MR::NeedMore => {
                            if self.inb.buf.is_full() {
                                ReadStep::Close
                            } else {
                                ReadStep::Continue
                            }
                        },
                        MR::Mismatch => {
                            self.inb.dead = true;
                            ReadStep::Close
                        },
                        MR::Match(addr) => ReadStep::Dial(addr),
                    }
                } else {
                    if inbo {
                        self.inb.buf.push(d.as_slice());
                    } else {
                        match &mut self.out {
                            Some(o) => o.buf.push(d.as_slice()),
                            None => (),
                        }
                    }
                    ReadStep::Forwarded
                }
            },
            ReadEvent::Eof => {
                if inbo && self.out.is_none() {
                    self.inb.dead = true;
                    ReadStep::Close
                } else if inbo {
                    self.inb.dead = true;
                    let done = match &self.out {
                        Some(o) => o.dead && self.inb.buf.is_empty() && o.buf.is_empty(),
                        None => false,
                    };
                    if done {
                        ReadStep::Close
                    } else {
                        self.inb.interest.readable = false;
                        ReadStep::Suspend
                    }
                } else {
                    let done = match &mut self.out {
                        Some(o) => {
                            o.dead = true;
                            self.inb.dead && self.inb.buf.is_empty() && o.buf.is_empty()
                        },
                        None => false,
                    };
                    if done {
                        ReadStep::Close
                    } else {
                        match &mut self.out {
                            Some(o) => o.interest.readable = false,
                            None => (),
                        }
                        ReadStep::Suspend
                    }
                }
            },
            ReadEvent::WouldBlock => ReadStep::Done,
            ReadEvent::Error => {
                if inbo && self.out.is_none() {
                    self.inb.dead = true;
                    ReadStep::Close
                } else if inbo {
                    self.inb.dead = true;
                    self.inb.interest.readable = false;
                    ReadStep::Suspend
                } else {
                    match &mut self.out {
                        Some(o) => {
                            o.dead = true;
                            o.interest.readable = false;
                        },
                        None => (),
                    }
                    ReadStep::Suspend
                }
            },
        }
    }

    /// After bytes were forwarded into the indicated half's buffer and
    /// the peer had its chance to drain, suspend reads if the buffer is
    /// still full; reads resume when the peer's writes make room.
    pub fn after_read(&mut self, inbo: bool) -> (r: ReadStep)
        requires
            old(self).wf(),
            !inbo ==> old(self).out is Some,
        ensures
            final(self).wf(),
            after_read_post(*old(self), *final(self), inbo, r),
    {
        if inbo {
            if self.inb.buf.is_full() {
                self.inb.interest.readable = false;
                ReadStep::Suspend
            } else {
                ReadStep::Continue
            }
        } else {
            let full = match &self.out {
                Some(o) => o.buf.is_full(),
                None => false,
            };
            if full {
                match &mut self.out {
                    Some(o) => o.interest.readable = false,
                    None => (),
                }
                ReadStep::Suspend
            } else {
                ReadStep::Continue
            }
        }
    }

    /// Handle one write outcome on the indicated half, which drains the
    /// peer half's buffer into its own socket.
    ///
    /// A readiness event marks the half writable. While the peer buffer
    /// holds bytes, they are handed out to be written; each reported
    /// count consumes that many. When the peer buffer is empty, the
    /// peer's readable interest is re-armed if its reads were suspended
    /// for room, and the flow closes once both halves are dead and
    /// drained. A would-block clears writability; a failure closes the
    /// flow.
    pub fn write(&mut self, inbo: bool, ev: WriteEvent) -> (r: WriteStep)
        requires
            old(self).wf(),
            !inbo ==> old(self).out is Some,
            !(ev matches WriteEvent::Ready) ==> old(self).out is Some,
            ev matches WriteEvent::Wrote(n) ==> n <= old(self).side(!inbo).buf.contents().len(),
        ensures
            final(self).wf(),
            write_post(*old(self), *final(self), inbo, ev, r),
    {
        match ev {
            WriteEvent::Ready => {
                if inbo {
                    self.inb.writable = true;
                } else {
                    match &mut self.out {
                        Some(o) => o.writable = true,
                        None => (),
                    }
                }
                if self.out.is_some() {
                    self.flush(inbo)
                } else {
                    WriteStep::Idle(false)
                }
            },
            WriteEvent::Flush => self.flush(inbo),
            WriteEvent::Wrote(n) => {
                if inbo {
                    match &mut self.out {
                        Some(o) => o.buf.consume(n),
                        None => (),
                    }
                } else {
                    self.inb.buf.consume(n);
                }
                WriteStep::Continue
            },
            WriteEvent::WouldBlock => {
                if inbo {
                    self.inb.writable = false;
                } else {
                    match &mut self.out {
                        Some(o) => o.writable = false,
                        None => (),
                    }
                }
                WriteStep::Done
            },
            WriteEvent::Error => {
                if inbo {
                    self.inb.writable = false;
                } else {
                    match &mut self.out {
                        Some(o) => o.writable = false,
                        None => (),
                    }
                }
                WriteStep::Close
            },
        }
    }

    /// Attempt to drain the peer buffer into this half's socket.
    fn flush(&mut self, inbo: bool) -> (r: WriteStep)
        requires
            old(self).wf(),
            old(self).out is Some,
        ensures
            final(self).wf(),
            (final(self).out is Some) == (old(self).out is Some),
            final(self).side(inbo).writable == old(self).side(inbo).writable,
            flush_post(*old(self), *final(self), inbo, r),
    {
        let peer_empty = if inbo {
            match &self.out {
                Some(o) => o.buf.is_empty(),
                None => true,
            }
        } else {
            self.inb.buf.is_empty()
        };
        if peer_empty {
            let done = {
                let out_dead_empty = match &self.out {
                    Some(o) => o.dead && o.buf.is_empty(),
                    None => false,
                };
                self.inb.dead && self.inb.buf.is_empty() && out_dead_empty
            };
            if done {
                return WriteStep::Close;
            }
            let rearm = if inbo {
                match &self.out {
                    Some(o) => !o.interest.readable && !o.dead,
                    None => false,
                }
            } else {
                !self.inb.interest.readable && !self.inb.dead
            };
            if rearm {
                if inbo {
                    match &mut self.out {
                        Some(o) => o.interest.readable = true,
                        None => (),
                    }
                } else {
                    self.inb.interest.readable = true;
                }
                WriteStep::Idle(true)
            } else {
                WriteStep::Idle(false)
            }
        } else {
            let can_write = if inbo {
                self.inb.writable
            } else {
                match &self.out {
                    Some(o) => o.writable,
                    None => false,
                }
            };
            if !can_write {
                return WriteStep::Done;
            }
            let chunk = if inbo {
                match &self.out {
                    Some(o) => o.buf.peek(),
                    None => Vec::new(),
                }
            } else {
                self.inb.buf.peek()
            };
            WriteStep::Data(chunk)
        }
    }
}

/// What one read outcome does to the flow and what it answers.
///
/// Data before resolution grows the inbound buffer and the flow follows
/// the multiplexer's decision on the whole prefix: it keeps reading,
/// closes on a mismatch or a full buffer, or names the backend to dial.
/// Data after resolution goes into the reading half's buffer, to be
/// drained by the peer. End of stream and failure mark the half dead;
/// after resolution the half suspends its reads and the flow closes
/// only once both halves are dead and drained.
pub open spec fn read_post<M: Multiplexer>(
    m: &M,
    pre: Flow,
    post: Flow,
    inbo: bool,
    ev: ReadEvent,
    r: ReadStep,
) -> bool {
    &&& (post.out is Some) == (pre.out is Some)
    &&& post.inb.token == pre.inb.token
    &&& match ev {
        ReadEvent::Data(d) => if pre.out is None {
            let grown = pre.inb.buf.contents() + d@;
            &&& post.inb.buf.contents() =~= grown
            &&& post.inb.buf.delivered() == pre.inb.buf.delivered()
            &&& post.inb.buf.capacity() == pre.inb.buf.capacity()
            &&& post.inb.interest == pre.inb.interest
            &&& post.inb.writable == pre.inb.writable
            &&& match m.decision(grown) {
                Decision::NeedMore => {
                    &&& post.inb.dead == pre.inb.dead
                    &&& r == if grown.len() == pre.inb.buf.capacity() {
                        ReadStep::Close
                    } else {
                        ReadStep::Continue
                    }
                },
                Decision::Mismatch => post.inb.dead && r == ReadStep::Close,
                Decision::Match(a) => {
                    &&& post.inb.dead == pre.inb.dead
                    &&& r matches ReadStep::Dial(addr) && addr@ == a
                },
            }
        } else {
            &&& same_but_buf(pre.side(inbo), post.side(inbo))
            &&& post.side(inbo).buf.contents() =~= pre.side(inbo).buf.contents() + d@
            &&& post.side(inbo).buf.delivered() == pre.side(inbo).buf.delivered()
            &&& post.side(inbo).buf.capacity() == pre.side(inbo).buf.capacity()
            &&& post.side(!inbo) == pre.side(!inbo)
            &&& r == ReadStep::Forwarded
        },
        ReadEvent::Eof => {
            &&& post.side(inbo).dead
            &&& post.side(inbo).buf == pre.side(inbo).buf
            &&& post.side(inbo).token == pre.side(inbo).token
            &&& pre.out is Some ==> post.side(!inbo) == pre.side(!inbo)
            &&& if pre.out is None {
                r == ReadStep::Close
            } else if pre.side(!inbo).dead && pre.side(inbo).buf.contents().len() == 0 && pre.side(
                !inbo,
            ).buf.contents().len() == 0 {
                r == ReadStep::Close && post.finished()
            } else {
                r == ReadStep::Suspend && !post.side(inbo).interest.readable
            }
        },
        ReadEvent::WouldBlock => post == pre && r == ReadStep::Done,
        ReadEvent::Error => {
            &&& post.side(inbo).dead
            &&& post.side(inbo).buf == pre.side(inbo).buf
            &&& post.side(inbo).token == pre.side(inbo).token
            &&& pre.out is Some ==> post.side(!inbo) == pre.side(!inbo)
            &&& if pre.out is None {
                r == ReadStep::Close
            } else {
                r == ReadStep::Suspend && !post.side(inbo).interest.readable
            }
        },
    }
}

/// The same connection with its writable flag raised.
pub open spec fn conn_writable(c: Conn) -> Conn {
    Conn { token: c.token, interest: c.interest, dead: c.dead, writable: true, buf: c.buf }
}

/// The same flow with the indicated half's writable flag raised.
pub open spec fn with_writable(f: Flow, inbo: bool) -> Flow {
    if inbo {
        Flow { inb: conn_writable(f.inb), out: f.out }
    } else {
        Flow { inb: f.inb, out: Some(conn_writable(f.out.unwrap())) }
    }
}

/// What the check after a forwarded read does: with the buffer full,
/// the half drops its readable interest and waits for the peer's writes
/// to make room; otherwise nothing changes and reading goes on.
pub open spec fn after_read_post(pre: Flow, post: Flow, inbo: bool, r: ReadStep) -> bool {
    &&& (post.out is Some) == (pre.out is Some)
    &&& post.side(inbo).buf == pre.side(inbo).buf
    &&& post.side(inbo).dead == pre.side(inbo).dead
    &&& post.side(inbo).writable == pre.side(inbo).writable
    &&& post.side(inbo).token == pre.side(inbo).token
    &&& post.side(inbo).interest.writable == pre.side(inbo).interest.writable
    &&& pre.out is Some ==> post.side(!inbo) == pre.side(!inbo)
    &&& if pre.side(inbo).buf.contents().len() == pre.side(inbo).buf.capacity() {
        r == ReadStep::Suspend && !post.side(inbo).interest.readable
    } else {
        r == ReadStep::Continue && post == pre
    }
}

/// What one write outcome does to the flow and what it answers.
///
/// A readiness event raises the half's writable flag and drains like a
/// flush. Each reported count consumes that many bytes, in order, from
/// the front of the peer's buffer into its consumed stream. Would-block
/// lowers the writable flag until the next readiness event; a failure
/// lowers it and closes the flow.
pub open spec fn write_post(pre: Flow, post: Flow, inbo: bool, ev: WriteEvent, r: WriteStep) -> bool {
    &&& (post.out is Some) == (pre.out is Some)
    &&& match ev {
        WriteEvent::Ready => {
            &&& post.side(inbo).writable
            &&& post.side(inbo).buf == pre.side(inbo).buf
            &&& post.side(inbo).dead == pre.side(inbo).dead
            &&& post.side(inbo).interest == pre.side(inbo).interest
            &&& post.side(inbo).token == pre.side(inbo).token
            &&& pre.out is Some ==> flush_post(with_writable(pre, inbo), post, inbo, r)
            &&& pre.out is None ==> post.out is None && r == WriteStep::Idle(false)
        },
        WriteEvent::Flush => {
            &&& post.side(inbo).writable == pre.side(inbo).writable
            &&& flush_post(pre, post, inbo, r)
        },
        WriteEvent::Wrote(n) => {
            &&& post.side(inbo) == pre.side(inbo)
            &&& same_but_buf(pre.side(!inbo), post.side(!inbo))
            &&& post.side(!inbo).buf.contents() =~= pre.side(!inbo).buf.contents().skip(n as int)
            &&& post.side(!inbo).buf.delivered() =~= pre.side(!inbo).buf.delivered() + pre.side(
                !inbo,
            ).buf.contents().take(n as int)
            &&& post.side(!inbo).buf.capacity() == pre.side(!inbo).buf.capacity()
            &&& r == WriteStep::Continue
        },
        WriteEvent::WouldBlock => {
            &&& !post.side(inbo).writable
            &&& post.side(inbo).buf == pre.side(inbo).buf
            &&& post.side(inbo).dead == pre.side(inbo).dead
            &&& post.side(inbo).interest == pre.side(inbo).interest
            &&& post.side(inbo).token == pre.side(inbo).token
            &&& pre.out is Some ==> post.side(!inbo) == pre.side(!inbo)
            &&& r == WriteStep::Done
        },
        WriteEvent::Error => {
            &&& !post.side(inbo).writable
            &&& post.side(inbo).buf == pre.side(inbo).buf
            &&& post.side(inbo).dead == pre.side(inbo).dead
            &&& post.side(inbo).interest == pre.side(inbo).interest
            &&& post.side(inbo).token == pre.side(inbo).token
            &&& pre.out is Some ==> post.side(!inbo) == pre.side(!inbo)
            &&& r == WriteStep::Close
        },
    }
}

/// What draining the peer of the `inbo` half leaves behind and answers:
/// with the peer buffer empty, the flow closes when finished, or the
/// peer's suspended reads are re-armed now that there is room; with
/// bytes pending and the half writable, they are handed out to write;
/// a half that cannot accept writes waits.
pub open spec fn flush_post(pre: Flow, post: Flow, inbo: bool, r: WriteStep) -> bool {
    &&& post.side(inbo).buf == pre.side(inbo).buf
    &&& post.side(inbo).dead == pre.side(inbo).dead
    &&& post.side(inbo).token == pre.side(inbo).token
    &&& post.side(inbo).interest == pre.side(inbo).interest
    &&& post.side(!inbo).buf == pre.side(!inbo).buf
    &&& post.side(!inbo).dead == pre.side(!inbo).dead
    &&& post.side(!inbo).writable == pre.side(!inbo).writable
    &&& post.side(!inbo).token == pre.side(!inbo).token
    &&& if pre.side(!inbo).buf.contents().len() == 0 {
        if pre.finished() {
            r == WriteStep::Close && post.side(!inbo).interest == pre.side(!inbo).interest
        } else if !pre.side(!inbo).interest.readable && !pre.side(!inbo).dead {
            r == WriteStep::Idle(true) && post.side(!inbo).interest.readable && post.side(
                !inbo,
            ).interest.writable == pre.side(!inbo).interest.writable
        } else {
            r == WriteStep::Idle(false) && post.side(!inbo).interest == pre.side(!inbo).interest
        }
    } else {
        post.side(!inbo).interest == pre.side(!inbo).interest && if pre.side(inbo).writable {
            r matches WriteStep::Data(v) && v@ == pre.side(!inbo).buf.contents()
        } else {
            r == WriteStep::Done
        }
    }
}

/// Byte transparency of one forwarding direction: everything a flow has
/// handed to the consuming socket is, byte for byte and in order, a
/// prefix of what the producing socket delivered into the flow; nothing
/// is lost, reordered or invented.
pub proof fn lemma_flow_transparent(f: &Flow, inbo: bool)
    requires
        !inbo ==> f.out is Some,
    ensures
        f.side(inbo).buf.delivered() =~= f.side(inbo).buf.history().take(
            f.side(inbo).buf.delivered().len() as int,
        ),
        f.side(inbo).buf.history() == f.side(inbo).buf.delivered() + f.side(inbo).buf.contents(),
{
    let b = f.side(inbo).buf;
    crate::ring::lemma_delivered_prefix(&b);
}

} // verus!

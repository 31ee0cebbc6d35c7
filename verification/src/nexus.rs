//! The reactor's handle space and flow table.
//!
//! Each registered socket is named by an integer handle (a token). The
//! handle space is partitioned: handle 0 is reserved as invalid, handle 1
//! names the listener, and every other handle names one half of a flow.
//! The high bit distinguishes the outbound half from the inbound half of
//! the same flow; the remaining bits are the flow's index in the table.

use vstd::prelude::*;
use vstd::std_specs::vec::vec_index_mut;

use crate::flow::{
    after_read_post, read_post, write_post, Flow, ReadEvent, ReadStep, WriteEvent, WriteStep,
};
use crate::multiplex::{Decision, Multiplexer, MR};

verus! {

/// Reserved handle that is never registered; events for it are a bug.
pub const INVALID: usize = 0;

/// Handle of the listening socket.
pub const ACCEPTOR: usize = 1;

/// Lowest handle that names a flow's inbound half.
pub const FLOW_BASE: usize = 2;

/// Bit that marks the outbound half of a flow: 2^31.
pub const OUTMASK: usize = 2147483648;

/// Build the handle under which a flow half is registered: the flow's
/// own token for the inbound half, the token with the high bit set for
/// the outbound half.
pub fn encode_token(token: usize, outbound: bool) -> (r: usize)
    requires
        token < OUTMASK,
    ensures
        r == if outbound { token + OUTMASK } else { token as int },
{
    if outbound {
        token + OUTMASK
    } else {
        token
    }
}

/// Recover from a handle whether it names an inbound half and which
/// flow token it belongs to.
pub fn decode_token(handle: usize) -> (r: (bool, usize))
    requires
        handle < 2 * OUTMASK,
    ensures
        r == (decoded_inbound(handle as int), decoded_flow_token(handle as int)),
{
    if handle >= OUTMASK {
        (false, handle - OUTMASK)
    } else {
        (true, handle)
    }
}

/// Whether a handle names the inbound half of its flow.
pub open spec fn decoded_inbound(handle: int) -> bool {
    handle < OUTMASK
}

/// The flow token a handle belongs to.
pub open spec fn decoded_flow_token(handle: int) -> usize {
    if handle >= OUTMASK {
        (handle - OUTMASK) as usize
    } else {
        handle as usize
    }
}

/// Decoding inverts encoding: every flow token below the mask comes back
/// out of its own handle, for either half.
pub proof fn lemma_token_roundtrip(token: usize, outbound: bool)
    requires
        token < OUTMASK,
    ensures
        decoded_inbound(if outbound { token + OUTMASK } else { token as int }) == !outbound,
        decoded_flow_token(if outbound { token + OUTMASK } else { token as int }) == token,
{
}

/// What the reactor should do for a socket it just accepted.
pub enum AcceptStep {
    /// The flow table is full: close the socket; nothing was created.
    Full,
    /// The socket was admitted under this token: register it there. If
    /// an address is given, the policy matched before any byte arrived:
    /// dial it at once and install the outbound half.
    Admitted { token: usize, dial: Option<String> },
}

/// The reactor's state: the routing policy, the per-connection buffer
/// size, and the flow table. Slot `i` of the table owns token
/// `FLOW_BASE + i`; a removed flow frees its slot for reuse.
pub struct Nexus<M: Multiplexer> {
    /// Ring buffer size handed to each new connection half.
    pub bufsize: usize,
    /// The routing policy consulted on each inbound prefix.
    pub multiplexer: M,
    /// The flow table; slot `i` owns token `FLOW_BASE + i`.
    pub conns: Vec<Option<Flow>>,
}

impl<M: Multiplexer> Nexus<M> {
    /// The flow table: slot `i` holds the flow registered under token
    /// `FLOW_BASE + i`, if any.
    pub open spec fn slots(&self) -> Seq<Option<Flow>> {
        self.conns@
    }

    /// Well-formed: every flow in the table is itself well-formed and
    /// sits under the token of its own slot, so every handle the
    /// reactor sees maps back to the right flow and half.
    pub open spec fn wf(&self) -> bool {
        &&& self.bufsize >= 1
        &&& FLOW_BASE + self.slots().len() <= OUTMASK
        &&& forall|i: int|
            0 <= i < self.slots().len() ==> match #[trigger] self.slots()[i] {
                Some(f) => f.wf() && f.inb.token == FLOW_BASE + i,
                None => true,
            }
    }

    /// The slot a token names, if the token is in range.
    pub open spec fn slot_of(&self, token: usize) -> int {
        token - FLOW_BASE
    }

    /// Whether a token names a slot of this table.
    pub open spec fn token_in_range(&self, token: usize) -> bool {
        FLOW_BASE <= token && token - FLOW_BASE < self.slots().len()
    }

    /// A reactor with an empty flow table of the given capacity.
    pub fn new(bufsize: usize, capacity: usize, multiplexer: M) -> (r: Nexus<M>)
        requires
            bufsize >= 1,
            FLOW_BASE + capacity <= OUTMASK,
        ensures
            r.wf(),
            r.bufsize == bufsize,
            r.multiplexer == multiplexer,
            r.slots().len() == capacity,
            forall|i: int| 0 <= i < capacity ==> #[trigger] r.slots()[i] is None,
    {
        let mut conns: Vec<Option<Flow>> = Vec::new();
        let mut i: usize = 0;
        while i < capacity
            invariant
                i <= capacity,
                conns@.len() == i,
                forall|j: int| 0 <= j < i ==> #[trigger] conns@[j] is None,
            decreases capacity - i,
        {
            conns.push(None);
            i = i + 1;
        }
        Nexus { bufsize, multiplexer, conns }
    }

    /// Admit a freshly accepted socket: take the first free slot, set a
    /// new flow up under its token, and consult the policy on the empty
    /// prefix, so a fixed backend is dialed before any byte arrives.
    /// With no slot free the socket is turned away.
    pub fn accept(&mut self) -> (r: AcceptStep)
        requires
            old(self).wf(),
        ensures
            final(self).wf(),
            final(self).bufsize == old(self).bufsize,
            final(self).multiplexer == old(self).multiplexer,
            final(self).slots().len() == old(self).slots().len(),
            match r {
                AcceptStep::Full => *final(self) == *old(self) && forall|i: int|
                    0 <= i < old(self).slots().len() ==> #[trigger] old(self).slots()[i] is Some,
                AcceptStep::Admitted { token, dial } => {
                    let i = token - FLOW_BASE;
                    &&& old(self).token_in_range(token)
                    &&& old(self).slots()[i] is None
                    &&& forall|j: int| 0 <= j < i ==> #[trigger] old(self).slots()[j] is Some
                    &&& forall|j: int|
                        0 <= j < old(self).slots().len() && j != i ==> final(self).slots()[j] == #[trigger] old(self).slots()[j]
                    &&& final(self).slots()[i] matches Some(f) && {
                        &&& f.inb.token == token
                        &&& f.out is None
                        &&& !f.inb.dead
                        &&& !f.inb.writable
                        &&& f.inb.interest.readable && f.inb.interest.writable
                        &&& f.inb.buf.capacity() == old(self).bufsize
                        &&& f.inb.buf.contents() =~= Seq::<u8>::empty()
                        &&& f.inb.buf.delivered() =~= Seq::<u8>::empty()
                    }
                    &&& match old(self).multiplexer.decision(Seq::<u8>::empty()) {
                        Decision::Match(a) => dial matches Some(s) && s@ == a,
                        Decision::NeedMore => dial is None,
                        Decision::Mismatch => dial is None,
                    }
                },
            },
    {
        let cap = self.conns.len();
        let mut i: usize = 0;
        while i < cap
            invariant
                *self == *old(self),
                self.wf(),
                cap == self.slots().len(),
                i <= cap,
                forall|j: int| 0 <= j < i ==> #[trigger] self.slots()[j] is Some,
            decreases cap - i,
        {
            let free = self.conns[i].is_none();
            if free {
                let token = FLOW_BASE + i;
                let flow = Flow::new(token, self.bufsize);
                *vec_index_mut(&mut self.conns, i) = Some(flow);
                let empty: Vec<u8> = Vec::new();
                let dial = match self.multiplexer.destination(empty.as_slice()) {
                    MR::Match(addr) => Some(addr),
                    MR::NeedMore => None,
                    MR::Mismatch => None,
                };
                return AcceptStep::Admitted { token, dial };
            }
            i = i + 1;
        }
        AcceptStep::Full
    }

    /// Drop the flow a token names, freeing its slot. A token naming no
    /// flow is ignored.
    pub fn stop_flow(&mut self, token: usize)
        requires
            old(self).wf(),
        ensures
            final(self).wf(),
            final(self).bufsize == old(self).bufsize,
            final(self).multiplexer == old(self).multiplexer,
            final(self).slots().len() == old(self).slots().len(),
            old(self).token_in_range(token) ==> final(self).slots() =~= old(self).slots().update(
                old(self).slot_of(token),
                None,
            ),
            !old(self).token_in_range(token) ==> *final(self) == *old(self),
    {
        if token >= FLOW_BASE && token - FLOW_BASE < self.conns.len() {
            *vec_index_mut(&mut self.conns, token - FLOW_BASE) = None;
        }
    }

    /// The flow a token names, if there is one.
    pub fn find_connection_by_token(&self, token: usize) -> (r: Option<&Flow>)
        requires
            self.wf(),
        ensures
            match r {
                Some(f) => self.token_in_range(token) && self.slots()[self.slot_of(token)] == Some(
                    *f,
                ),
                None => !self.token_in_range(token) || self.slots()[self.slot_of(token)] is None,
            },
    {
        if token >= FLOW_BASE && token - FLOW_BASE < self.conns.len() {
            match &self.conns[token - FLOW_BASE] {
                Some(f) => Some(f),
                None => None,
            }
        } else {
            None
        }
    }

    /// Install the outbound half of the flow a token names, after its
    /// backend was dialed. Answers whether a flow without an outbound
    /// half stood there.
    pub fn install_outbound(&mut self, token: usize) -> (r: bool)
        requires
            old(self).wf(),
        ensures
            final(self).wf(),
            final(self).bufsize == old(self).bufsize,
            final(self).multiplexer == old(self).multiplexer,
            final(self).slots().len() == old(self).slots().len(),
            if old(self).token_in_range(token) && old(self).slots()[old(self).slot_of(token)]
                is Some && old(self).slots()[old(self).slot_of(token)].unwrap().out is None {
                let f = old(self).slots()[old(self).slot_of(token)].unwrap();
                &&& r
                &&& forall|j: int|
                    0 <= j < old(self).slots().len() && j != old(self).slot_of(token)
                        ==> final(self).slots()[j] == #[trigger] old(self).slots()[j]
                &&& final(self).slots()[old(self).slot_of(token)] matches Some(f2) && {
                    &&& f2.inb == f.inb
                    &&& f2.out matches Some(o) && {
                        &&& o.token == f.inb.token + OUTMASK
                        &&& o.interest.readable && o.interest.writable
                        &&& !o.dead
                        &&& !o.writable
                        &&& o.buf.capacity() == old(self).bufsize
                        &&& o.buf.contents() =~= Seq::<u8>::empty()
                        &&& o.buf.delivered() =~= Seq::<u8>::empty()
                    }
                }
            } else {
                !r && *final(self) == *old(self)
            },
    {
        let bufsize = self.bufsize;
        if token >= FLOW_BASE && token - FLOW_BASE < self.conns.len() {
            let vacant = match &self.conns[token - FLOW_BASE] {
                Some(f) => !f.has_outbound(),
                None => false,
            };
            if vacant {
                match vec_index_mut(&mut self.conns, token - FLOW_BASE) {
                    Some(f) => {
                        f.set_outbound(bufsize);
                        true
                    },
                    None => false,
                }
            } else {
                false
            }
        } else {
            false
        }
    }

    /// Hand a read outcome to the flow a token names; answers nothing
    /// if no flow stands there (a stale event, which the reactor logs
    /// and ignores).
    pub fn flow_read(&mut self, token: usize, inbo: bool, ev: ReadEvent) -> (r: Option<ReadStep>)
        requires
            old(self).wf(),
            old(self).token_in_range(token) && old(self).slots()[old(self).slot_of(token)]
                is Some ==> {
                let f = old(self).slots()[old(self).slot_of(token)].unwrap();
                &&& (!inbo ==> f.out is Some)
                &&& (ev matches ReadEvent::Data(d) ==> 1 <= d@.len() <= f.side(inbo).buf.capacity()
                    - f.side(inbo).buf.contents().len())
            },
        ensures
            final(self).wf(),
            final(self).bufsize == old(self).bufsize,
            final(self).multiplexer == old(self).multiplexer,
            final(self).slots().len() == old(self).slots().len(),
            match r {
                None => *final(self) == *old(self) && (!old(self).token_in_range(token) || old(self).slots()[old(self).slot_of(token)] is None),
                Some(step) => {
                    &&& old(self).token_in_range(token)
                    &&& forall|j: int|
                        0 <= j < old(self).slots().len() && j != old(self).slot_of(token)
                            ==> final(self).slots()[j] == #[trigger] old(self).slots()[j]
                    &&& old(self).slots()[old(self).slot_of(token)] matches Some(f) && final(self).slots()[old(self).slot_of(token)] matches Some(f2) && read_post(
                        &old(self).multiplexer,
                        f,
                        f2,
                        inbo,
                        ev,
                        step,
                    )
                },
            },
    {
        if token >= FLOW_BASE && token - FLOW_BASE < self.conns.len() && self.conns[token
            - FLOW_BASE].is_some() {
            let multiplexer = &self.multiplexer;
            match vec_index_mut(&mut self.conns, token - FLOW_BASE) {
                Some(f) => Some(f.read(inbo, ev, multiplexer)),
                None => None,
            }
        } else {
            None
        }
    }

    /// Hand a write outcome to the flow a token names; answers nothing
    /// if no flow stands there.
    pub fn flow_write(&mut self, token: usize, inbo: bool, ev: WriteEvent) -> (r: Option<
        WriteStep,
    >)
        requires
            old(self).wf(),
            old(self).token_in_range(token) && old(self).slots()[old(self).slot_of(token)]
                is Some ==> {
                let f = old(self).slots()[old(self).slot_of(token)].unwrap();
                &&& (!inbo ==> f.out is Some)
                &&& (!(ev matches WriteEvent::Ready) ==> f.out is Some)
                &&& (ev matches WriteEvent::Wrote(n) ==> n <= f.side(!inbo).buf.contents().len())
            },
        ensures
            final(self).wf(),
            final(self).bufsize == old(self).bufsize,
            final(self).multiplexer == old(self).multiplexer,
            final(self).slots().len() == old(self).slots().len(),
            match r {
                None => *final(self) == *old(self) && (!old(self).token_in_range(token) || old(self).slots()[old(self).slot_of(token)] is None),
                Some(step) => {
                    &&& old(self).token_in_range(token)
                    &&& forall|j: int|
                        0 <= j < old(self).slots().len() && j != old(self).slot_of(token)
                            ==> final(self).slots()[j] == #[trigger] old(self).slots()[j]
                    &&& old(self).slots()[old(self).slot_of(token)] matches Some(f) && final(self).slots()[old(self).slot_of(token)] matches Some(f2) && write_post(
                        f,
                        f2,
                        inbo,
                        ev,
                        step,
                    )
                },
            },
    {
        if token >= FLOW_BASE && token - FLOW_BASE < self.conns.len() && self.conns[token
            - FLOW_BASE].is_some() {
            match vec_index_mut(&mut self.conns, token - FLOW_BASE) {
                Some(f) => Some(f.write(inbo, ev)),
                None => None,
            }
        } else {
            None
        }
    }

    /// Run the full-buffer check after a forwarded read on the flow a
    /// token names; answers nothing if no flow stands there.
    pub fn flow_after_read(&mut self, token: usize, inbo: bool) -> (r: Option<ReadStep>)
        requires
            old(self).wf(),
            old(self).token_in_range(token) && old(self).slots()[old(self).slot_of(token)]
                is Some ==> (!inbo ==> old(self).slots()[old(self).slot_of(token)].unwrap().out
                is Some),
        ensures
            final(self).wf(),
            final(self).bufsize == old(self).bufsize,
            final(self).multiplexer == old(self).multiplexer,
            final(self).slots().len() == old(self).slots().len(),
            match r {
                None => *final(self) == *old(self) && (!old(self).token_in_range(token) || old(self).slots()[old(self).slot_of(token)] is None),
                Some(step) => {
                    &&& old(self).token_in_range(token)
                    &&& forall|j: int|
                        0 <= j < old(self).slots().len() && j != old(self).slot_of(token)
                            ==> final(self).slots()[j] == #[trigger] old(self).slots()[j]
                    &&& old(self).slots()[old(self).slot_of(token)] matches Some(f) && final(self).slots()[old(self).slot_of(token)] matches Some(f2) && after_read_post(
                        f,
                        f2,
                        inbo,
                        step,
                    )
                },
            },
    {
        if token >= FLOW_BASE && token - FLOW_BASE < self.conns.len() && self.conns[token
            - FLOW_BASE].is_some() {
            match vec_index_mut(&mut self.conns, token - FLOW_BASE) {
                Some(f) => Some(f.after_read(inbo)),
                None => None,
            }
        } else {
            None
        }
    }
}

/// Byte transparency across the whole flow table: for every flow and
/// either direction, the stream handed to the consuming socket is,
/// byte for byte and in order, a prefix of the stream the producing
/// socket delivered into the flow — the peeked ClientHello included,
/// since it enters the same buffer as everything after it.
pub proof fn lemma_system_transparent<M: Multiplexer>(n: &Nexus<M>, i: int, inbo: bool)
    requires
        n.wf(),
        0 <= i < n.slots().len(),
        n.slots()[i] is Some,
        !inbo ==> n.slots()[i].unwrap().out is Some,
    ensures
        ({
            let b = n.slots()[i].unwrap().side(inbo).buf;
            &&& b.delivered() =~= b.history().take(b.delivered().len() as int)
            &&& b.history() == b.delivered() + b.contents()
        }),
{
    let f = n.slots()[i].unwrap();
    crate::flow::lemma_flow_transparent(&f, inbo);
}

/// Every flow in a well-formed table is registered consistently with
/// the handle space: its inbound half under its slot's token and its
/// outbound half, once present, under that token with the high bit set.
pub proof fn lemma_slab_handles<M: Multiplexer>(n: &Nexus<M>, i: int)
    requires
        n.wf(),
        0 <= i < n.slots().len(),
        n.slots()[i] is Some,
    ensures
        n.slots()[i].unwrap().inb.token == FLOW_BASE + i,
        n.slots()[i].unwrap().out matches Some(o) ==> o.token == OUTMASK + FLOW_BASE + i,
{
}

} // verus!

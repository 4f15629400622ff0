//! The bidirectional byte relay between an established client socket and an
//! established backend socket.
//!
//! Each direction owns one fixed-capacity [`Buffer`]: bytes read from the
//! source are appended at its tail, bytes written to the destination are
//! removed from its head, so within one direction bytes are forwarded in the
//! order received. [`ProxyChannel`] is the relay's decision state machine: the
//! caller performs one socket operation at a time and feeds the outcome back,
//! and the machine says which operation comes next and when the whole relay
//! ends.

use vstd::prelude::*;

use crate::error::{Direction, Error, Side};

verus! {

/// A fixed-capacity byte buffer for one relay direction.
///
/// Bytes live in `inner[write_start..read_start]`: reads from the source
/// append at `read_start`, writes to the destination consume from
/// `write_start`. The window only rewinds to the front when it drains
/// completely, so the free space is what remains behind `read_start`.
pub struct Buffer {
    inner: Vec<u8>,
    write_start: usize,
    read_start: usize,
}

impl Buffer {
    /// Well-formedness: the window bounds are ordered and inside the storage,
    /// and an empty window always sits at the front.
    pub closed spec fn inv(&self) -> bool {
        &&& self.write_start <= self.read_start <= self.inner@.len()
        &&& (self.write_start == self.read_start ==> self.write_start == 0)
    }

    /// The fixed capacity: how many bytes the buffer can hold in all.
    pub closed spec fn capacity(&self) -> nat {
        self.inner@.len()
    }

    /// The bytes read from the source and not yet written to the destination,
    /// oldest first.
    pub closed spec fn pending(&self) -> Seq<u8> {
        self.inner@.subrange(self.write_start as int, self.read_start as int)
    }

    /// How many more bytes the buffer accepts before it must drain.
    pub closed spec fn free(&self) -> nat {
        (self.inner@.len() - self.read_start) as nat
    }

    /// Pending bytes and free space never exceed the capacity together, and a
    /// drained buffer accepts a full capacity again.
    pub proof fn lemma_space(&self)
        requires
            self.inv(),
        ensures
            self.pending().len() + self.free() <= self.capacity(),
            self.pending().len() == 0 ==> self.free() == self.capacity(),
    {
    }

    /// Makes an empty buffer of the given fixed capacity.
    pub fn new(capacity: usize) -> (r: Self)
        ensures
            r.inv(),
            r.capacity() == capacity,
            r.pending() == Seq::<u8>::empty(),
            r.free() == capacity,
    {
        let r = Buffer { inner: vec![0u8; capacity], write_start: 0, read_start: 0 };
        proof {
            assert(r.pending() =~= Seq::<u8>::empty());
        }
        r
    }

    /// How many more bytes the buffer accepts now.
    pub fn free_len(&self) -> (n: usize)
        requires
            self.inv(),
        ensures
            n == self.free(),
    {
        self.inner.len() - self.read_start
    }

    /// How many bytes wait to be written out.
    pub fn pending_len(&self) -> (n: usize)
        requires
            self.inv(),
        ensures
            n == self.pending().len(),
    {
        self.read_start - self.write_start
    }

    /// Appends bytes that were read from the source, keeping their order.
    pub fn push_bytes(&mut self, data: &[u8])
        requires
            old(self).inv(),
            data@.len() <= old(self).free(),
        ensures
            final(self).inv(),
            final(self).capacity() == old(self).capacity(),
            final(self).pending() == old(self).pending() + data@,
            final(self).free() == old(self).free() - data@.len(),
    {
        let total = self.inner.len();
        let mut i: usize = 0;
        while i < data.len()
            invariant
                i <= data@.len(),
                old(self).inv(),
                data@.len() <= old(self).free(),
                self.write_start == old(self).write_start,
                self.read_start == old(self).read_start,
                self.inner@.len() == old(self).inner@.len(),
                total == self.inner@.len(),
                forall|k: int| 0 <= k < self.read_start ==> self.inner@[k] == old(self).inner@[k],
                forall|k: int| 0 <= k < i ==> self.inner@[self.read_start + k] == data@[k],
            decreases data@.len() - i,
        {
            let b = data[i];
            self.inner[self.read_start + i] = b;
            i += 1;
        }
        self.read_start = self.read_start + data.len();
        proof {
            assert(self.pending() =~= old(self).pending() + data@);
        }
    }

    /// Copies the pending bytes, oldest first, without consuming them. A
    /// caller writes some prefix of them out and then confirms with
    /// [`Buffer::take_bytes`] how many the destination accepted.
    pub fn pending_bytes(&self) -> (out: Vec<u8>)
        requires
            self.inv(),
        ensures
            out@ == self.pending(),
    {
        let mut out: Vec<u8> = Vec::new();
        let n = self.read_start - self.write_start;
        let mut i: usize = 0;
        while i < n
            invariant
                i <= n,
                self.inv(),
                n == self.pending().len(),
                out@ == self.pending().take(i as int),
            decreases n - i,
        {
            let b = self.inner[self.write_start + i];
            out.push(b);
            proof {
                assert(out@ =~= self.pending().take(i + 1));
            }
            i += 1;
        }
        proof {
            assert(self.pending().take(n as int) =~= self.pending());
        }
        out
    }

    /// Removes the `n` oldest pending bytes, as a write of them to the
    /// destination would, and returns them. When the buffer drains completely
    /// its whole capacity becomes free again.
    pub fn take_bytes(&mut self, n: usize) -> (out: Vec<u8>)
        requires
            old(self).inv(),
            n <= old(self).pending().len(),
        ensures
            final(self).inv(),
            final(self).capacity() == old(self).capacity(),
            out@ == old(self).pending().take(n as int),
            final(self).pending() == old(self).pending().skip(n as int),
            final(self).free() == if n == old(self).pending().len() {
                old(self).capacity()
            } else {
                old(self).free()
            },
    {
        let mut out: Vec<u8> = Vec::new();
        let mut i: usize = 0;
        while i < n
            invariant
                i <= n,
                old(self).inv(),
                n <= old(self).pending().len(),
                *self == *old(self),
                out@ == old(self).pending().take(i as int),
            decreases n - i,
        {
            let b = self.inner[self.write_start + i];
            out.push(b);
            proof {
                assert(out@ =~= old(self).pending().take(i + 1));
            }
            i += 1;
        }
        let new_write = self.write_start + n;
        if new_write == self.read_start {
            self.write_start = 0;
            self.read_start = 0;
        } else {
            self.write_start = new_write;
        }
        proof {
            assert(self.pending() =~= old(self).pending().skip(n as int));
        }
        out
    }
}

/// One socket operation of a relay round, in the order the relay tries them:
/// read from the client, flush to the backend, read from the backend, flush to
/// the client.
#[derive(Clone, Copy, Debug, PartialEq, Eq, Structural)]
pub enum RelayOp {
    /// Read available bytes from the client into the client-to-server buffer.
    ReadClient,
    /// Write buffered client bytes to the backend.
    WriteServer,
    /// Read available bytes from the backend into the server-to-client buffer.
    ReadServer,
    /// Write buffered backend bytes to the client.
    WriteClient,
}

/// The socket an operation runs on.
pub open spec fn op_side(op: RelayOp) -> Side {
    match op {
        RelayOp::ReadClient | RelayOp::WriteClient => Side::Client,
        RelayOp::WriteServer | RelayOp::ReadServer => Side::Server,
    }
}

/// The relay direction an operation serves.
pub open spec fn op_direction(op: RelayOp) -> Direction {
    match op {
        RelayOp::ReadClient | RelayOp::WriteServer => Direction::ClientToServer,
        RelayOp::ReadServer | RelayOp::WriteClient => Direction::ServerToClient,
    }
}

/// Whether the operation fills a buffer (a read) rather than draining one.
pub open spec fn op_is_read(op: RelayOp) -> bool {
    op == RelayOp::ReadClient || op == RelayOp::ReadServer
}

/// The operation that follows when the current one cannot progress.
pub open spec fn op_next(op: RelayOp) -> RelayOp {
    match op {
        RelayOp::ReadClient => RelayOp::WriteServer,
        RelayOp::WriteServer => RelayOp::ReadServer,
        RelayOp::ReadServer => RelayOp::WriteClient,
        RelayOp::WriteClient => RelayOp::ReadClient,
    }
}

/// The outcome of one socket operation, reported back to the relay.
#[derive(Debug)]
pub enum RelayEvent {
    /// The socket would block, or the operation's buffer has no room or no
    /// bytes for it.
    NotReady,
    /// End of stream on a read, or a zero-length write: the peer closed.
    Closed,
    /// A read handed back these bytes (never empty, never more than the free
    /// space of the operation's buffer).
    Read(Vec<u8>),
    /// A write moved this many of the operation's buffered bytes out (never
    /// zero, never more than were pending).
    Wrote(usize),
    /// The socket failed with an error other than would-block.
    Failed,
}

/// What the relay decides after one operation's outcome.
#[derive(Clone, Copy, Debug, PartialEq, Eq, Structural)]
pub enum RelayVerdict {
    /// Progress was made: start the next round at `ReadClient`.
    Continue,
    /// Run the next operation of this round, or, wrapped in `Yield`, none
    /// could progress.
    Advance,
    /// No operation of the round could progress: wait until a socket is ready
    /// again, then start over.
    Yield,
    /// The session is over, normally: close both sockets.
    Finished,
    /// The session is over with a relay failure: close both sockets and
    /// report the carried error.
    Fatal(Error),
}

/// The relay between one client socket and one backend socket: two
/// fixed-capacity buffers, one per direction, and the round-robin decision
/// state. The caller owns the sockets, performs [`ProxyChannel::current_op`]
/// on them, and feeds each outcome to [`ProxyChannel::step`].
pub struct ProxyChannel {
    /// Bytes travelling from the client to the backend.
    pub client_buf: Buffer,
    /// Bytes travelling from the backend to the client.
    pub server_buf: Buffer,
    /// The operation the relay runs next; the round restarts at `ReadClient`
    /// after every operation that made progress.
    pub op: RelayOp,
}

impl ProxyChannel {
    /// The fixed capacity of each direction's buffer.
    pub const DEFAULT_BUFFER_SIZE: usize = 8 * 1024;

    /// Both buffers are well formed.
    pub open spec fn inv(&self) -> bool {
        self.client_buf.inv() && self.server_buf.inv()
    }

    /// The operation the relay runs next.
    pub open spec fn spec_op(&self) -> RelayOp {
        self.op
    }

    /// The buffer that the given operation fills or drains.
    pub open spec fn buf_of(&self, op: RelayOp) -> Buffer {
        match op {
            RelayOp::ReadClient | RelayOp::WriteServer => self.client_buf,
            RelayOp::ReadServer | RelayOp::WriteClient => self.server_buf,
        }
    }

    /// Makes a relay with one empty buffer of the given capacity per
    /// direction, starting its round at `ReadClient`.
    pub fn with_buffer_size(capacity: usize) -> (r: Self)
        ensures
            r.inv(),
            r.spec_op() == RelayOp::ReadClient,
            r.client_buf.capacity() == capacity,
            r.server_buf.capacity() == capacity,
            r.client_buf.pending() == Seq::<u8>::empty(),
            r.server_buf.pending() == Seq::<u8>::empty(),
            r.client_buf.free() == capacity,
            r.server_buf.free() == capacity,
    {
        ProxyChannel {
            client_buf: Buffer::new(capacity),
            server_buf: Buffer::new(capacity),
            op: RelayOp::ReadClient,
        }
    }

    /// Makes a relay with the default buffer size per direction.
    pub fn new() -> (r: Self)
        ensures
            r.inv(),
            r.spec_op() == RelayOp::ReadClient,
            r.client_buf.capacity() == Self::DEFAULT_BUFFER_SIZE,
            r.server_buf.capacity() == Self::DEFAULT_BUFFER_SIZE,
            r.client_buf.pending() == Seq::<u8>::empty(),
            r.server_buf.pending() == Seq::<u8>::empty(),
            r.client_buf.free() == Self::DEFAULT_BUFFER_SIZE,
            r.server_buf.free() == Self::DEFAULT_BUFFER_SIZE,
    {
        Self::with_buffer_size(Self::DEFAULT_BUFFER_SIZE)
    }

    /// The operation to run next on the sockets.
    pub fn current_op(&self) -> (op: RelayOp)
        ensures
            op == self.spec_op(),
    {
        self.op
    }

    /// Feeds one operation's outcome to the relay and applies its decision.
    ///
    /// End of stream or a zero-length write anywhere ends the whole relay
    /// normally (`Finished`); any socket error other than would-block ends it
    /// with a `RelayError` naming the failing side and direction (`Fatal`).
    /// In both cases the caller closes both sockets. A would-block outcome
    /// moves on to the next operation of the round, yielding after the last
    /// one; progress restarts the round, so within each direction bytes move
    /// strictly in the order they arrived.
    pub fn step(&mut self, ev: RelayEvent) -> (v: RelayVerdict)
        requires
            old(self).inv(),
            ev matches RelayEvent::Read(data) ==> op_is_read(old(self).spec_op())
                && 0 < data@.len()
                && data@.len() <= old(self).buf_of(old(self).spec_op()).free(),
            ev matches RelayEvent::Wrote(n) ==> !op_is_read(old(self).spec_op())
                && 0 < n
                && n <= old(self).buf_of(old(self).spec_op()).pending().len(),
        ensures
            final(self).inv(),
            final(self).client_buf.capacity() == old(self).client_buf.capacity(),
            final(self).server_buf.capacity() == old(self).server_buf.capacity(),
            ev is NotReady ==> final(self).client_buf == old(self).client_buf
                && final(self).server_buf == old(self).server_buf
                && final(self).spec_op() == op_next(old(self).spec_op())
                && v == (if old(self).spec_op() == RelayOp::WriteClient {
                    RelayVerdict::Yield
                } else {
                    RelayVerdict::Advance
                }),
            ev is Closed ==> v == RelayVerdict::Finished && *final(self) == *old(self),
            ev is Failed ==> *final(self) == *old(self)
                && v == RelayVerdict::Fatal(Error::RelayError {
                    side: op_side(old(self).spec_op()),
                    direction: op_direction(old(self).spec_op()),
                }),
            ev matches RelayEvent::Read(data) ==> v == RelayVerdict::Continue
                && final(self).spec_op() == RelayOp::ReadClient
                && (old(self).spec_op() == RelayOp::ReadClient ==> final(self).client_buf.pending()
                    == old(self).client_buf.pending() + data@
                    && final(self).client_buf.free() == old(self).client_buf.free() - data@.len()
                    && final(self).server_buf == old(self).server_buf)
                && (old(self).spec_op() == RelayOp::ReadServer ==> final(self).server_buf.pending()
                    == old(self).server_buf.pending() + data@
                    && final(self).server_buf.free() == old(self).server_buf.free() - data@.len()
                    && final(self).client_buf == old(self).client_buf),
            ev matches RelayEvent::Wrote(n) ==> v == RelayVerdict::Continue
                && final(self).spec_op() == RelayOp::ReadClient
                && (old(self).spec_op() == RelayOp::WriteServer ==> final(self).client_buf.pending() == old(self).client_buf.pending().skip(n as int)
                    && final(self).client_buf.free() == (if n == old(self).client_buf.pending().len() {
                        old(self).client_buf.capacity()
                    } else {
                        old(self).client_buf.free()
                    })
                    && final(self).server_buf == old(self).server_buf)
                && (old(self).spec_op() == RelayOp::WriteClient ==> final(self).server_buf.pending() == old(self).server_buf.pending().skip(n as int)
                    && final(self).server_buf.free() == (if n == old(self).server_buf.pending().len() {
                        old(self).server_buf.capacity()
                    } else {
                        old(self).server_buf.free()
                    })
                    && final(self).client_buf == old(self).client_buf),
    {
        match ev {
            RelayEvent::NotReady => {
                let was_last = matches!(self.op, RelayOp::WriteClient);
                self.op = match self.op {
                    RelayOp::ReadClient => RelayOp::WriteServer,
                    RelayOp::WriteServer => RelayOp::ReadServer,
                    RelayOp::ReadServer => RelayOp::WriteClient,
                    RelayOp::WriteClient => RelayOp::ReadClient,
                };
                if was_last {
                    RelayVerdict::Yield
                } else {
                    RelayVerdict::Advance
                }
            },
            RelayEvent::Closed => RelayVerdict::Finished,
            RelayEvent::Failed => {
                let side = match self.op {
                    RelayOp::ReadClient | RelayOp::WriteClient => Side::Client,
                    RelayOp::WriteServer | RelayOp::ReadServer => Side::Server,
                };
                let direction = match self.op {
                    RelayOp::ReadClient | RelayOp::WriteServer => Direction::ClientToServer,
                    RelayOp::ReadServer | RelayOp::WriteClient => Direction::ServerToClient,
                };
                RelayVerdict::Fatal(Error::RelayError { side, direction })
            },
            RelayEvent::Read(data) => {
                match self.op {
                    RelayOp::ReadClient => self.client_buf.push_bytes(data.as_slice()),
                    RelayOp::ReadServer => self.server_buf.push_bytes(data.as_slice()),
                    _ => {
                        proof {
                            assert(false);
                        }
                    },
                }
                self.op = RelayOp::ReadClient;
                RelayVerdict::Continue
            },
            RelayEvent::Wrote(n) => {
                match self.op {
                    RelayOp::WriteServer => {
                        let _ = self.client_buf.take_bytes(n);
                    },
                    RelayOp::WriteClient => {
                        let _ = self.server_buf.take_bytes(n);
                    },
                    _ => {
                        proof {
                            assert(false);
                        }
                    },
                }
                self.op = RelayOp::ReadClient;
                RelayVerdict::Continue
            },
        }
    }
}

/// Moves a whole input through one relay direction's buffer, exactly as the
/// relay's two-phase pump does: fill the buffer from the source up to its
/// free space, then drain it to the destination in writes of at most
/// `write_limit` bytes (a partial write leaves the rest buffered, and nothing
/// is re-read until the buffer drains). The destination observes the source
/// bytes in the same order and with the same content, for inputs of any
/// length — also ones larger than the buffer's capacity.
pub fn pump_through(input: &[u8], capacity: usize, write_limit: usize) -> (out: Vec<u8>)
    requires
        capacity > 0,
        write_limit > 0,
    ensures
        out@ == input@,
{
    let mut buf = Buffer::new(capacity);
    let mut out: Vec<u8> = Vec::new();
    let mut consumed: usize = 0;
    while consumed < input.len() || buf.pending_len() > 0
        invariant
            buf.inv(),
            buf.capacity() == capacity,
            capacity > 0,
            write_limit > 0,
            consumed <= input@.len(),
            out@ + buf.pending() == input@.subrange(0, consumed as int),
        decreases input@.len() - consumed, buf.pending().len(),
    {
        proof {
            buf.lemma_space();
        }
        let free = buf.free_len();
        if consumed < input.len() && free > 0 {
            let rest = input.len() - consumed;
            let chunk = if free < rest {
                free
            } else {
                rest
            };
            let ghost out0 = out@;
            let ghost p0 = buf.pending();
            let ghost c0 = consumed as int;
            buf.push_bytes(&input[consumed..consumed + chunk]);
            consumed = consumed + chunk;
            proof {
                let chunkv = input@.subrange(c0, consumed as int);
                assert((out0 + p0) + chunkv =~= input@.subrange(0, consumed as int));
                assert(out0 + (p0 + chunkv) =~= (out0 + p0) + chunkv);
            }
        }
        let pending = buf.pending_len();
        let w = if write_limit < pending {
            write_limit
        } else {
            pending
        };
        let ghost out1 = out@;
        let ghost p1 = buf.pending();
        let mut written = buf.take_bytes(w);
        out.append(&mut written);
        proof {
            assert((out1 + p1.take(w as int)) + p1.skip(w as int) =~= out1 + p1);
            assert(out@ + buf.pending() =~= input@.subrange(0, consumed as int));
        }
    }
    proof {
        assert(input@.subrange(0, input@.len() as int) =~= input@);
    }
    out
}

} // verus!

//! One proxy session: the live binding of one accepted client connection to
//! one candidate-selector run and, on success, to one relay run.
//!
//! The session owns its two sockets outside the library for its whole
//! lifetime; here it owns the decision state: first the selector phase, then
//! the relay phase, and a terminal phase once the relay ends or selection
//! fails, on which the caller closes every socket it holds.

use vstd::prelude::*;

use crate::consul::{effective_endpoint, Endpoint, ServiceNodeView};
use crate::error::Error;
use crate::proxy_channel::{
    op_direction, op_is_read, op_next, op_side, ProxyChannel, RelayEvent, RelayOp, RelayVerdict,
};
use crate::proxy_server::SelectServer;

verus! {

/// Where a session stands in its lifecycle.
#[derive(Clone, Copy, Debug, PartialEq, Eq, Structural)]
pub enum SessionPhase {
    /// Querying the directory and attempting candidates.
    Selecting,
    /// Relaying bytes between the established client and backend sockets.
    Relaying,
    /// Over: the caller closes both sockets, on every exit path.
    Done,
}

/// One proxy session's decision state.
pub struct Proxy {
    /// The failover selector of the session.
    pub select: SelectServer,
    /// The relay, once a backend connection is established.
    pub channel: Option<ProxyChannel>,
    /// The lifecycle phase.
    pub phase: SessionPhase,
}

impl Proxy {
    /// A relaying session always holds a well-formed relay.
    pub open spec fn inv(&self) -> bool {
        self.phase == SessionPhase::Relaying ==> self.channel is Some
            && self.channel.unwrap().inv()
    }

    /// Makes a session that awaits the directory's answer for its accepted
    /// client connection.
    pub fn new(service_port: Option<u16>, connect_timeout_ms: u64) -> (r: Self)
        ensures
            r.inv(),
            r.phase == SessionPhase::Selecting,
            r.select.remaining() == Seq::<ServiceNodeView>::empty(),
            r.select.server is None,
            r.select.service_port == service_port,
            r.select.connect_timeout_ms == connect_timeout_ms,
            r.channel is None,
    {
        Proxy {
            select: SelectServer::new(service_port, connect_timeout_ms),
            channel: Option::None,
            phase: SessionPhase::Selecting,
        }
    }

    /// A connect attempt on the selector's current candidate succeeded: the
    /// session moves to the relay phase with one fresh pair of buffers, and
    /// reports the backend endpoint it is now bound to.
    pub fn backend_connected(&mut self) -> (r: Endpoint)
        requires
            old(self).phase == SessionPhase::Selecting,
            old(self).select.server is Some,
        ensures
            r@ == effective_endpoint(
                old(self).select.server.unwrap()@,
                old(self).select.service_port,
            ),
            final(self).inv(),
            final(self).phase == SessionPhase::Relaying,
            final(self).select == old(self).select,
            final(self).channel matches Some(ch) && ch.spec_op() == RelayOp::ReadClient
                && ch.client_buf.pending() == Seq::<u8>::empty() && ch.server_buf.pending()
                == Seq::<u8>::empty() && ch.client_buf.capacity()
                == ProxyChannel::DEFAULT_BUFFER_SIZE && ch.server_buf.capacity()
                == ProxyChannel::DEFAULT_BUFFER_SIZE && ch.client_buf.free()
                == ProxyChannel::DEFAULT_BUFFER_SIZE && ch.server_buf.free()
                == ProxyChannel::DEFAULT_BUFFER_SIZE,
    {
        let addr = self.select.on_connected();
        self.channel = Option::Some(ProxyChannel::new());
        self.phase = SessionPhase::Relaying;
        addr
    }

    /// Selection failed for good — the directory query failed, or every
    /// candidate was exhausted: the session is over without a relay, and the
    /// caller closes the client socket.
    pub fn abort(&mut self)
        requires
            old(self).phase == SessionPhase::Selecting,
        ensures
            final(self).inv(),
            final(self).phase == SessionPhase::Done,
            final(self).select == old(self).select,
            final(self).channel == old(self).channel,
    {
        self.phase = SessionPhase::Done;
    }

    /// One relay step: feeds one socket operation's outcome to the relay and
    /// applies its decision, exactly as [`ProxyChannel::step`] states it.
    /// An end of stream or an I/O error anywhere ends the whole session —
    /// the phase turns `Done` and the caller closes both sockets.
    pub fn relay_step(&mut self, ev: RelayEvent) -> (v: RelayVerdict)
        requires
            old(self).phase == SessionPhase::Relaying,
            old(self).inv(),
            ev matches RelayEvent::Read(data) ==> op_is_read(old(self).channel.unwrap().spec_op())
                && 0 < data@.len() && data@.len() <= old(self).channel.unwrap().buf_of(
                old(self).channel.unwrap().spec_op(),
            ).free(),
            ev matches RelayEvent::Wrote(n) ==> !op_is_read(old(self).channel.unwrap().spec_op())
                && 0 < n && n <= old(self).channel.unwrap().buf_of(
                old(self).channel.unwrap().spec_op(),
            ).pending().len(),
        ensures
            final(self).inv(),
            final(self).select == old(self).select,
            final(self).channel is Some,
            final(self).phase == (if v is Finished || v is Fatal {
                SessionPhase::Done
            } else {
                SessionPhase::Relaying
            }),
            ev is NotReady ==> final(self).channel == Option::Some(
                ProxyChannel {
                    op: op_next(old(self).channel.unwrap().spec_op()),
                    ..old(self).channel.unwrap()
                },
            ) && v == (if old(self).channel.unwrap().spec_op() == RelayOp::WriteClient {
                RelayVerdict::Yield
            } else {
                RelayVerdict::Advance
            }),
            ev is Closed ==> v == RelayVerdict::Finished && final(self).channel == old(self).channel,
            ev is Failed ==> final(self).channel == old(self).channel && v == RelayVerdict::Fatal(
                Error::RelayError {
                    side: op_side(old(self).channel.unwrap().spec_op()),
                    direction: op_direction(old(self).channel.unwrap().spec_op()),
                },
            ),
            ev matches RelayEvent::Read(data) ==> v == RelayVerdict::Continue && final(self).channel.unwrap().spec_op() == RelayOp::ReadClient && (old(self).channel.unwrap().spec_op() == RelayOp::ReadClient ==> final(self).channel.unwrap().client_buf.pending() == old(self).channel.unwrap().client_buf.pending() + data@ && final(self).channel.unwrap().client_buf.free() == old(self).channel.unwrap().client_buf.free() - data@.len() && final(self).channel.unwrap().server_buf == old(self).channel.unwrap().server_buf) && (old(self).channel.unwrap().spec_op() == RelayOp::ReadServer ==> final(self).channel.unwrap().server_buf.pending() == old(self).channel.unwrap().server_buf.pending() + data@ && final(self).channel.unwrap().server_buf.free() == old(self).channel.unwrap().server_buf.free() - data@.len() && final(self).channel.unwrap().client_buf == old(self).channel.unwrap().client_buf),
            ev matches RelayEvent::Wrote(n) ==> v == RelayVerdict::Continue && final(self).channel.unwrap().spec_op() == RelayOp::ReadClient && (old(self).channel.unwrap().spec_op() == RelayOp::WriteServer ==> final(self).channel.unwrap().client_buf.pending() == old(self).channel.unwrap().client_buf.pending().skip(n as int) && final(self).channel.unwrap().client_buf.free() == (if n == old(self).channel.unwrap().client_buf.pending().len() {
                old(self).channel.unwrap().client_buf.capacity()
            } else {
                old(self).channel.unwrap().client_buf.free()
            }) && final(self).channel.unwrap().server_buf == old(self).channel.unwrap().server_buf) && (old(self).channel.unwrap().spec_op() == RelayOp::WriteClient ==> final(self).channel.unwrap().server_buf.pending() == old(self).channel.unwrap().server_buf.pending().skip(n as int) && final(self).channel.unwrap().server_buf.free() == (if n == old(self).channel.unwrap().server_buf.pending().len() {
                old(self).channel.unwrap().server_buf.capacity()
            } else {
                old(self).channel.unwrap().server_buf.free()
            }) && final(self).channel.unwrap().client_buf == old(self).channel.unwrap().client_buf),
    {
        let v = match &mut self.channel {
            Option::Some(ch) => ch.step(ev),
            Option::None => {
                proof {
                    assert(false);
                }
                RelayVerdict::Yield
            },
        };
        match v {
            RelayVerdict::Finished => {
                self.phase = SessionPhase::Done;
            },
            RelayVerdict::Fatal(_) => {
                self.phase = SessionPhase::Done;
            },
            _ => {},
        }
        v
    }
}

} // verus!

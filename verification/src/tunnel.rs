//! The tunnel splice loop, as a state machine.
//!
//! Once a CONNECT handshake has been granted, the proxy copies bytes in both
//! directions between the upgraded client connection and the dialed target
//! connection. The loop that performs the reads and writes hands every
//! observation — bytes read, end-of-stream, an I/O error — to `tunnel_step`
//! and carries out the action it returns. Copying is full-duplex: a side
//! reaching end-of-stream half-closes its destination and the reverse copy
//! goes on; any I/O error ends the whole tunnel and closes both connections.

use vstd::prelude::*;

verus! {

/// The state of one tunnel session: whether each copy direction is still
/// running, whether an I/O error ended the session, and how many bytes have
/// moved each way.
#[derive(Clone, Copy, PartialEq, Eq, Structural, Debug)]
pub struct TunnelState {
    /// The client-to-target copy is still running.
    pub client_open: bool,
    /// The target-to-client copy is still running.
    pub target_open: bool,
    /// An I/O error ended the session.
    pub failed: bool,
    /// Bytes copied from the client to the target.
    pub client_to_target: u64,
    /// Bytes copied from the target to the client.
    pub target_to_client: u64,
}

/// What the splice loop observed on its streams.
#[derive(Clone, Copy, PartialEq, Eq, Structural, Debug)]
pub enum TunnelEvent {
    /// This many bytes were read from the client side.
    ClientBytes(u64),
    /// This many bytes were read from the target side.
    TargetBytes(u64),
    /// The client side reached end-of-stream.
    ClientEof,
    /// The target side reached end-of-stream.
    TargetEof,
    /// Reading from or writing to the client side failed.
    ClientFailed,
    /// Reading from or writing to the target side failed.
    TargetFailed,
}

/// What the splice loop must do next.
#[derive(Clone, Copy, PartialEq, Eq, Structural, Debug)]
pub enum TunnelAction {
    /// Write the bytes just read from the client to the target.
    RelayToTarget,
    /// Write the bytes just read from the target to the client.
    RelayToClient,
    /// Half-close the write side toward the target; the reverse copy goes on.
    ShutdownTarget,
    /// Half-close the write side toward the client; the reverse copy goes on.
    ShutdownClient,
    /// Close both connections, best effort; the session is over.
    CloseBoth,
    /// Nothing: the event concerns a direction that had already ended.
    Stay,
}

/// A session that failed has stopped copying in both directions.
pub open spec fn tunnel_wf(s: TunnelState) -> bool {
    s.failed ==> !s.client_open && !s.target_open
}

/// Both directions have ended: the session is over and the loop returns.
pub open spec fn tunnel_done(s: TunnelState) -> bool {
    !s.client_open && !s.target_open
}

/// The transition table of the splice loop. Bytes read on an open direction
/// are relayed and counted; end-of-stream half-closes its own direction
/// only; an I/O error on either stream ends the whole session; events on a
/// direction that had already ended change nothing.
pub open spec fn tunnel_step_model(s: TunnelState, ev: TunnelEvent) -> (TunnelState, TunnelAction) {
    match ev {
        TunnelEvent::ClientBytes(n) => if s.client_open {
            (
                TunnelState { client_to_target: (s.client_to_target + n) as u64, ..s },
                TunnelAction::RelayToTarget,
            )
        } else {
            (s, TunnelAction::Stay)
        },
        TunnelEvent::TargetBytes(n) => if s.target_open {
            (
                TunnelState { target_to_client: (s.target_to_client + n) as u64, ..s },
                TunnelAction::RelayToClient,
            )
        } else {
            (s, TunnelAction::Stay)
        },
        TunnelEvent::ClientEof => if s.client_open {
            (TunnelState { client_open: false, ..s }, TunnelAction::ShutdownTarget)
        } else {
            (s, TunnelAction::Stay)
        },
        TunnelEvent::TargetEof => if s.target_open {
            (TunnelState { target_open: false, ..s }, TunnelAction::ShutdownClient)
        } else {
            (s, TunnelAction::Stay)
        },
        TunnelEvent::ClientFailed | TunnelEvent::TargetFailed => if s.client_open
            || s.target_open {
            (
                TunnelState { client_open: false, target_open: false, failed: true, ..s },
                TunnelAction::CloseBoth,
            )
        } else {
            (s, TunnelAction::Stay)
        },
    }
}

/// A fresh session: both directions copying, nothing moved yet.
pub fn tunnel_start() -> (s: TunnelState)
    ensures
        s == (TunnelState {
            client_open: true,
            target_open: true,
            failed: false,
            client_to_target: 0,
            target_to_client: 0,
        }),
        tunnel_wf(s),
        !tunnel_done(s),
{
    TunnelState {
        client_open: true,
        target_open: true,
        failed: false,
        client_to_target: 0,
        target_to_client: 0,
    }
}

/// One step of the splice loop: feeds an observation into the session and
/// returns the new state and the action to carry out. The byte counters only
/// grow, and a well-formed session stays well formed.
pub fn tunnel_step(s: TunnelState, ev: TunnelEvent) -> (r: (TunnelState, TunnelAction))
    requires
        tunnel_wf(s),
        match ev {
            TunnelEvent::ClientBytes(n) => s.client_open ==> s.client_to_target + n
                <= u64::MAX,
            TunnelEvent::TargetBytes(n) => s.target_open ==> s.target_to_client + n
                <= u64::MAX,
            _ => true,
        },
    ensures
        r == tunnel_step_model(s, ev),
        tunnel_wf(r.0),
        r.0.client_to_target >= s.client_to_target,
        r.0.target_to_client >= s.target_to_client,
{
    match ev {
        TunnelEvent::ClientBytes(n) => {
            if s.client_open {
                (
                    TunnelState { client_to_target: s.client_to_target + n, ..s },
                    TunnelAction::RelayToTarget,
                )
            } else {
                (s, TunnelAction::Stay)
            }
        },
        TunnelEvent::TargetBytes(n) => {
            if s.target_open {
                (
                    TunnelState { target_to_client: s.target_to_client + n, ..s },
                    TunnelAction::RelayToClient,
                )
            } else {
                (s, TunnelAction::Stay)
            }
        },
        TunnelEvent::ClientEof => {
            if s.client_open {
                (TunnelState { client_open: false, ..s }, TunnelAction::ShutdownTarget)
            } else {
                (s, TunnelAction::Stay)
            }
        },
        TunnelEvent::TargetEof => {
            if s.target_open {
                (TunnelState { target_open: false, ..s }, TunnelAction::ShutdownClient)
            } else {
                (s, TunnelAction::Stay)
            }
        },
        TunnelEvent::ClientFailed | TunnelEvent::TargetFailed => {
            if s.client_open || s.target_open {
                (
                    TunnelState { client_open: false, target_open: false, failed: true, ..s },
                    TunnelAction::CloseBoth,
                )
            } else {
                (s, TunnelAction::Stay)
            }
        },
    }
}

/// Half-close keeps the reverse copy: when the client side reaches
/// end-of-stream, the target side is shut down for writing, but the
/// target-to-client direction and its byte count are untouched.
pub proof fn lemma_half_close_keeps_reverse(s: TunnelState)
    requires
        tunnel_wf(s),
        s.client_open,
    ensures
        !tunnel_step_model(s, TunnelEvent::ClientEof).0.client_open,
        tunnel_step_model(s, TunnelEvent::ClientEof).0.target_open == s.target_open,
        tunnel_step_model(s, TunnelEvent::ClientEof).0.target_to_client == s.target_to_client,
        tunnel_step_model(s, TunnelEvent::ClientEof).1 == TunnelAction::ShutdownTarget,
{
}

/// ... and symmetrically: end-of-stream on the target side leaves the
/// client-to-target direction and its byte count untouched.
pub proof fn lemma_half_close_keeps_forward(s: TunnelState)
    requires
        tunnel_wf(s),
        s.target_open,
    ensures
        !tunnel_step_model(s, TunnelEvent::TargetEof).0.target_open,
        tunnel_step_model(s, TunnelEvent::TargetEof).0.client_open == s.client_open,
        tunnel_step_model(s, TunnelEvent::TargetEof).0.client_to_target == s.client_to_target,
        tunnel_step_model(s, TunnelEvent::TargetEof).1 == TunnelAction::ShutdownClient,
{
}

/// An I/O error on either stream ends the whole session: both directions
/// stop, both connections are closed, and the byte counts stay as they were.
pub proof fn lemma_error_ends_session(s: TunnelState, ev: TunnelEvent)
    requires
        tunnel_wf(s),
        !tunnel_done(s),
        ev == TunnelEvent::ClientFailed || ev == TunnelEvent::TargetFailed,
    ensures
        tunnel_done(tunnel_step_model(s, ev).0),
        tunnel_step_model(s, ev).0.failed,
        tunnel_step_model(s, ev).1 == TunnelAction::CloseBoth,
        tunnel_step_model(s, ev).0.client_to_target == s.client_to_target,
        tunnel_step_model(s, ev).0.target_to_client == s.target_to_client,
{
}

/// A running session that sees end-of-stream first on the client side and
/// then on the target side ends cleanly: both directions closed, no
/// failure, and the byte counts stay what the relays made them.
pub proof fn lemma_eof_on_both_sides_closes_cleanly(s: TunnelState)
    requires
        tunnel_wf(s),
        s.client_open,
        s.target_open,
        !s.failed,
    ensures
        tunnel_done(
            tunnel_step_model(tunnel_step_model(s, TunnelEvent::ClientEof).0, TunnelEvent::TargetEof).0,
        ),
        !tunnel_step_model(
            tunnel_step_model(s, TunnelEvent::ClientEof).0,
            TunnelEvent::TargetEof,
        ).0.failed,
        tunnel_step_model(
            tunnel_step_model(s, TunnelEvent::ClientEof).0,
            TunnelEvent::TargetEof,
        ).0.client_to_target == s.client_to_target,
        tunnel_step_model(
            tunnel_step_model(s, TunnelEvent::ClientEof).0,
            TunnelEvent::TargetEof,
        ).0.target_to_client == s.target_to_client,
{
}

/// Relayed bytes are counted exactly: bytes read from an open client side
/// are written to the target and added, byte for byte, to that direction's
/// count.
pub proof fn lemma_counts_track_relayed_bytes(s: TunnelState, n: u64)
    requires
        tunnel_wf(s),
        s.client_open,
        s.client_to_target + n <= u64::MAX,
    ensures
        tunnel_step_model(s, TunnelEvent::ClientBytes(n)).1 == TunnelAction::RelayToTarget,
        tunnel_step_model(s, TunnelEvent::ClientBytes(n)).0.client_to_target
            == s.client_to_target + n,
        tunnel_step_model(s, TunnelEvent::ClientBytes(n)).0.target_to_client
            == s.target_to_client,
{
}

} // verus!

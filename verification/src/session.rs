//! The life of one proxied connection, from the client's arrival to the report
//! of its outcome.
//!
//! A session waits for something outside it (the client, the dial, the two
//! copies) and is told by an [`Event`] how that ended; it answers with the
//! [`Action`] to take next. The program that owns the sockets runs the loop.

use crate::address::{SocketAddress, ToSocketAddr};
use crate::backend::BackendHandle;
use crate::conf::{Conf, ConfImpl, ConfView};
use crate::report::{Outcome, Phase, Report};
use crate::time::TimeSpan;
use std::time::Instant;
use vstd::prelude::*;

verus! {

/// Where one proxied connection stands.
#[derive(Clone, Copy, Debug)]
pub enum Session {
    /// No client has arrived yet.
    Waiting,
    /// The client was admitted and given `backend`, which is being dialed.
    Dialing { client: SocketAddress, backend: BackendHandle, trace: Instant },
    /// The backend answered; bytes are copied in both directions.
    Forwarding { client: SocketAddress, backend: BackendHandle, trace: Instant },
    /// The connection is over.
    Closed,
}

/// What happened outside the session.
#[derive(Debug)]
pub enum Event {
    /// A client connected.
    Connected { client: SocketAddress },
    /// The backend accepted the connection.
    Dialed,
    /// Dialing the backend ended in `error`; `timed_out` where the bound on
    /// connecting ran out first.
    DialFailed { timed_out: bool, error: std::io::Error },
    /// Both copies ran to the end of their source.
    Forwarded { request_size: u64, response_size: u64 },
    /// The first copy to break did so reading its source.
    ReadFailed { timed_out: bool, error: std::io::Error },
    /// The first copy to break did so writing its destination.
    WriteFailed { timed_out: bool, error: std::io::Error },
}

/// What the session asks for next.
#[derive(Debug)]
pub enum Action {
    /// Drop the client, which is denied service; nothing is reported.
    Reject,
    /// Drop the client and tell the operator: the pool had no backend for it.
    NoBackend { client: SocketAddress },
    /// Connect to `backend`, within `timeout` where one is set.
    Dial { backend: SocketAddress, timeout: Option<TimeSpan> },
    /// Copy client to backend and backend to client at once, each read within
    /// `read_timeout` and each write within `write_timeout` where set.
    Forward { read_timeout: Option<TimeSpan>, write_timeout: Option<TimeSpan> },
    /// Close both connections and publish `report`.
    Finish { report: Report },
    /// Nothing: the event was none that the session waits for.
    Ignore,
}

impl Session {
    /// Whether `event` is one that this session waits for.
    pub open spec fn awaits(self, event: Event) -> bool {
        match self {
            Session::Waiting => event is Connected,
            Session::Dialing { .. } => event is Dialed || event is DialFailed,
            Session::Forwarding { .. } => event is Forwarded || event is ReadFailed
                || event is WriteFailed,
            Session::Closed => false,
        }
    }

    /// The backend that this session was given and has not yet reported on.
    pub open spec fn claim(self) -> Option<BackendHandle> {
        match self {
            Session::Dialing { backend, .. } => Some(backend),
            Session::Forwarding { backend, .. } => Some(backend),
            _ => None,
        }
    }

    /// Whether `event` is one that this session waits for.
    pub fn expects(&self, event: &Event) -> (awaited: bool)
        ensures
            awaited == self.awaits(*event),
    {
        match self {
            Session::Waiting => match event {
                Event::Connected { .. } => true,
                _ => false,
            },
            Session::Dialing { .. } => match event {
                Event::Dialed => true,
                Event::DialFailed { .. } => true,
                _ => false,
            },
            Session::Forwarding { .. } => match event {
                Event::Forwarded { .. } => true,
                Event::ReadFailed { .. } => true,
                Event::WriteFailed { .. } => true,
                _ => false,
            },
            Session::Closed => false,
        }
    }
}

/// Whether `report` is the report of a session of `client` on `backend` that
/// ended with `outcome` and `error`.
pub open spec fn reports(
    report: Report,
    client: SocketAddress,
    backend: BackendHandle,
    outcome: Outcome,
    error: Option<std::io::Error>,
) -> bool {
    &&& report.client == client
    &&& report.backend == backend.endpoint()
    &&& report.outcome == outcome
    &&& report.error == error
}

/// Whether the arrival of `client` at the configuration `before` leads to
/// `next`, `action` and the configuration `after`.
pub open spec fn admitted(
    before: ConfView,
    client: SocketAddress,
    after: ConfView,
    next: Session,
    action: Action,
) -> bool {
    if before.blacklist.contains(client) {
        next is Closed && action is Reject && after == before
    } else {
        match before.choice() {
            None => next is Closed && action == (Action::NoBackend { client }) && after == before,
            Some(i) => {
                &&& next matches Session::Dialing { client: admitted, backend, trace }
                &&& admitted == client
                &&& before.backends[i].serves(backend)
                &&& action == (Action::Dial {
                    backend: before.backends[i].address,
                    timeout: before.connection_timeout,
                })
                &&& after == before.selected()
            },
        }
    }
}

/// Whether a session of `client` on `backend` that ended with `outcome` and
/// `error` at the configuration `before` leads to `next`, `action` and the
/// configuration `after`.
pub open spec fn finished(
    before: ConfView,
    client: SocketAddress,
    backend: BackendHandle,
    outcome: Outcome,
    error: Option<std::io::Error>,
    after: ConfView,
    next: Session,
    action: Action,
) -> bool {
    &&& next is Closed
    &&& action matches Action::Finish { report }
    &&& reports(report, client, backend, outcome, error)
    &&& after == before.recorded(backend, outcome.failed_after(report.elapsed))
}

/// Whether `event`, met by `session` at the configuration `before`, leads to
/// `next`, `action` and the configuration `after`.
pub open spec fn stepped(
    before: ConfView,
    session: Session,
    event: Event,
    after: ConfView,
    next: Session,
    action: Action,
) -> bool {
    match session {
        Session::Waiting => match event {
            Event::Connected { client } => admitted(before, client, after, next, action),
            _ => next == session && action is Ignore && after == before,
        },
        Session::Dialing { client, backend, trace } => match event {
            Event::Dialed => {
                &&& next == (Session::Forwarding { client, backend, trace })
                &&& action == (Action::Forward {
                    read_timeout: before.read_timeout,
                    write_timeout: before.write_timeout,
                })
                &&& after == before
            },
            Event::DialFailed { timed_out, error } => finished(
                before,
                client,
                backend,
                Outcome::broken(Phase::Connect, timed_out),
                Some(error),
                after,
                next,
                action,
            ),
            _ => next == session && action is Ignore && after == before,
        },
        Session::Forwarding { client, backend, trace } => match event {
            Event::Forwarded { request_size, response_size } => finished(
                before,
                client,
                backend,
                Outcome::Success { request_size, response_size },
                None,
                after,
                next,
                action,
            ),
            Event::ReadFailed { timed_out, error } => finished(
                before,
                client,
                backend,
                Outcome::broken(Phase::Read, timed_out),
                Some(error),
                after,
                next,
                action,
            ),
            Event::WriteFailed { timed_out, error } => finished(
                before,
                client,
                backend,
                Outcome::broken(Phase::Write, timed_out),
                Some(error),
                after,
                next,
                action,
            ),
            _ => next == session && action is Ignore && after == before,
        },
        Session::Closed => next == session && action is Ignore && after == before,
    }
}

/// Records a break in `phase` by the operation that the policy has for it.
fn record_break(
    config: &mut ConfImpl,
    client: &SocketAddress,
    backend: BackendHandle,
    phase: Phase,
    timed_out: bool,
    error: std::io::Error,
    trace: Instant,
) -> (report: Report)
    requires
        old(config)@.wf(),
    ensures
        final(config)@.wf(),
        reports(report, *client, backend, Outcome::broken(phase, timed_out), Some(error)),
        final(config)@ == old(config)@.recorded(backend, Some(report.elapsed.secs)),
{
    match phase {
        Phase::Connect => if timed_out {
            config.record_connection_timeout(client, backend, error, trace)
        } else {
            config.record_connection_failure(client, backend, error, trace)
        },
        Phase::Read => if timed_out {
            config.record_read_timeout(client, backend, error, trace)
        } else {
            config.record_read_failure(client, backend, error, trace)
        },
        Phase::Write => if timed_out {
            config.record_write_timeout(client, backend, error, trace)
        } else {
            config.record_write_failure(client, backend, error, trace)
        },
    }
}

/// Takes the session one step: `event` has happened, and the answer is where
/// the session stands now and what is to be done next.
///
/// A client is first put to the blacklist, then given a backend, which counts
/// the session on it. From then on the session ends by exactly one record of
/// its outcome, made in the step that closes it. An event that the session
/// does not wait for changes nothing.
pub fn step(config: &mut ConfImpl, session: Session, event: Event) -> (next: (Session, Action))
    requires
        old(config)@.wf(),
    ensures
        final(config)@.wf(),
        stepped(old(config)@, session, event, final(config)@, next.0, next.1),
{
    match session {
        Session::Waiting => match event {
            Event::Connected { client } => match config.accept(&client) {
                None => (Session::Closed, Action::Reject),
                Some(trace) => match config.select(&client, trace) {
                    None => (Session::Closed, Action::NoBackend { client }),
                    Some(backend) => {
                        let timeout = config.connection_timeout();
                        (
                            Session::Dialing { client, backend, trace },
                            Action::Dial { backend: *backend.address(), timeout },
                        )
                    },
                },
            },
            _ => (session, Action::Ignore),
        },
        Session::Dialing { client, backend, trace } => match event {
            Event::Dialed => {
                let read_timeout = config.read_timeout();
                let write_timeout = config.write_timeout();
                (
                    Session::Forwarding { client, backend, trace },
                    Action::Forward { read_timeout, write_timeout },
                )
            },
            Event::DialFailed { timed_out, error } => {
                let report = record_break(
                    config,
                    &client,
                    backend,
                    Phase::Connect,
                    timed_out,
                    error,
                    trace,
                );
                (Session::Closed, Action::Finish { report })
            },
            _ => (session, Action::Ignore),
        },
        Session::Forwarding { client, backend, trace } => match event {
            Event::Forwarded { request_size, response_size } => {
                let report = config.record_success(
                    &client,
                    backend,
                    request_size,
                    response_size,
                    trace,
                );
                (Session::Closed, Action::Finish { report })
            },
            Event::ReadFailed { timed_out, error } => {
                let report = record_break(
                    config,
                    &client,
                    backend,
                    Phase::Read,
                    timed_out,
                    error,
                    trace,
                );
                (Session::Closed, Action::Finish { report })
            },
            Event::WriteFailed { timed_out, error } => {
                let report = record_break(
                    config,
                    &client,
                    backend,
                    Phase::Write,
                    timed_out,
                    error,
                    trace,
                );
                (Session::Closed, Action::Finish { report })
            },
            _ => (session, Action::Ignore),
        },
        Session::Closed => (session, Action::Ignore),
    }
}

} // verus!

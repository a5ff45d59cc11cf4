//! What holds of the pool and of a session, whatever the calls and their order.

use crate::address::{SocketAddress, ToSocketAddr};
use crate::backend::{count_down, count_up, BackendHandle, BackendView};
use crate::conf::{lemma_position, lemma_serving, ConfView};
use crate::session::{stepped, Action, Event, Session};
use vstd::prelude::*;

verus! {

/// Whether every backend of `after` has the load that it has in `before`.
pub open spec fn same_loads(before: ConfView, after: ConfView) -> bool {
    &&& after.backends.len() == before.backends.len()
    &&& forall|j: int|
        0 <= j < before.backends.len() ==> (#[trigger] after.backends[j]).active_count
            == before.backends[j].active_count
}

/// Adding and removing keep the addresses of the live backends distinct.
pub proof fn law_membership_keeps_validity(conf: ConfView, address: SocketAddress)
    requires
        conf.wf(),
    ensures
        conf.with_backend(address).wf(),
        conf.without_backend(address).wf(),
{
    match conf.position(address) {
        Some(p) => {
            let rest = conf.without_backend(address);
            assert forall|i: int, j: int| 0 <= i < j < rest.backends.len() implies
                rest.backends[i].address != rest.backends[j].address by {
                assert(rest.backends[i] == conf.backends[if i < p { i } else { i + 1 }]);
                assert(rest.backends[j] == conf.backends[if j < p { j } else { j + 1 }]);
            }
        },
        None => {},
    }
}

/// Selecting and recording keep the addresses of the live backends distinct.
pub proof fn law_sessions_keep_validity(
    conf: ConfView,
    handle: BackendHandle,
    failed_after: Option<u64>,
)
    requires
        conf.wf(),
    ensures
        conf.selected().wf(),
        conf.recorded(handle, failed_after).wf(),
{
}

/// A client on the blacklist is dropped before any backend is touched: the
/// session closes, asks for no dial and leaves the pool as it was.
pub proof fn law_denied_client_meets_no_backend(
    before: ConfView,
    client: SocketAddress,
    after: ConfView,
    next: Session,
    action: Action,
)
    requires
        before.blacklist.contains(client),
        stepped(before, Session::Waiting, Event::Connected { client }, after, next, action),
    ensures
        next is Closed,
        action is Reject,
        after == before,
{
}

/// With an empty pool selection gives nothing: the client is dropped, no
/// dial and no copy is asked for, and the operator is told.
pub proof fn law_empty_pool_forwards_nothing(
    before: ConfView,
    client: SocketAddress,
    after: ConfView,
    next: Session,
    action: Action,
)
    requires
        before.backends.len() == 0,
        stepped(before, Session::Waiting, Event::Connected { client }, after, next, action),
    ensures
        before.choice() is None,
        before.selected() == before,
        next is Closed,
        action is Reject || action == (Action::NoBackend { client }),
        after == before,
{
}

/// Adding an address twice is adding it once: the pool then has exactly one
/// backend with it, and an address that is already there changes nothing,
/// the load of its backend included.
pub proof fn law_add_is_idempotent(conf: ConfView, address: SocketAddress)
    requires
        conf.wf(),
    ensures
        conf.with_backend(address).with_backend(address) == conf.with_backend(address),
        conf.has_backend(address) ==> conf.with_backend(address) == conf,
        conf.with_backend(address).position(address) matches Some(at) && forall|i: int|
            0 <= i < conf.with_backend(address).backends.len() && conf.with_backend(
                address,
            ).backends[i].address == address ==> i == at,
{
    law_membership_keeps_validity(conf, address);
    if conf.has_backend(address) {
        let at = choose|i: int| 0 <= i < conf.backends.len() && conf.backends[i].address == address;
        assert(conf.first_at(address, at));
        lemma_position(conf, address, at);
    } else {
        lemma_position(conf.with_backend(address), address, conf.backends.len() as int);
    }
}

/// A selection and the one record of its session leave every backend with
/// the load it had before: the record takes off what the selection put on.
pub proof fn law_record_restores_load(
    conf: ConfView,
    handle: BackendHandle,
    failed_after: Option<u64>,
)
    requires
        conf.wf(),
        conf.choice() matches Some(i) && conf.backends[i].serves(handle),
    ensures
        same_loads(conf, conf.selected().recorded(handle, failed_after)),
{
    lemma_serving(conf.selected(), handle, conf.choice()->0);
}

/// A session takes a backend once, by selection, and reports on it once, in
/// the step that closes it. No other step touches the pool, and a closed
/// session stays closed.
pub proof fn law_one_record_per_selection(
    before: ConfView,
    session: Session,
    event: Event,
    after: ConfView,
    next: Session,
    action: Action,
)
    requires
        stepped(before, session, event, after, next, action),
    ensures
        session is Closed ==> next is Closed,
        match (session.claim(), next.claim()) {
            (None, None) => after == before,
            (None, Some(taken)) => {
                &&& after == before.selected()
                &&& before.choice() matches Some(i) && before.backends[i].serves(taken)
            },
            (Some(held), Some(kept)) => kept == held && after == before,
            (Some(held), None) => {
                &&& next is Closed
                &&& action matches Action::Finish { report }
                &&& report.backend == held.endpoint()
                &&& after == before.recorded(held, report.outcome.failed_after(report.elapsed))
            },
        },
{
}

/// Whether the steps are the run of one session with the pool to itself:
/// each starts from the configuration and the state in which the one before
/// it ended.
pub open spec fn is_run(
    confs: Seq<ConfView>,
    sessions: Seq<Session>,
    events: Seq<Event>,
    actions: Seq<Action>,
) -> bool {
    &&& confs.len() == events.len() + 1
    &&& sessions.len() == events.len() + 1
    &&& actions.len() == events.len()
    &&& forall|k: int|
        #![trigger events[k]]
        0 <= k < events.len() ==> stepped(
            confs[k],
            sessions[k],
            events[k],
            confs[k + 1],
            sessions[k + 1],
            actions[k],
        )
}

/// Where a run stands after `k` steps: nothing is changed while the session
/// waits, one selection is in the pool while it holds a backend, and the
/// loads are back once it is closed.
proof fn lemma_run_so_far(
    confs: Seq<ConfView>,
    sessions: Seq<Session>,
    events: Seq<Event>,
    actions: Seq<Action>,
    k: int,
)
    requires
        is_run(confs, sessions, events, actions),
        confs[0].wf(),
        sessions[0] is Waiting,
        0 <= k <= events.len(),
    ensures
        match sessions[k].claim() {
            Some(held) => {
                &&& confs[k] == confs[0].selected()
                &&& confs[0].choice() matches Some(i) && confs[0].backends[i].serves(held)
            },
            None => if sessions[k] is Waiting {
                confs[k] == confs[0]
            } else {
                same_loads(confs[0], confs[k])
            },
        },
    decreases k,
{
    if k > 0 {
        lemma_run_so_far(confs, sessions, events, actions, k - 1);
        let event = events[k - 1];
        law_one_record_per_selection(
            confs[k - 1],
            sessions[k - 1],
            event,
            confs[k],
            sessions[k],
            actions[k - 1],
        );
        match (sessions[k - 1].claim(), sessions[k].claim()) {
            (Some(held), None) => {
                let report = actions[k - 1]->report;
                law_record_restores_load(
                    confs[0],
                    held,
                    report.outcome.failed_after(report.elapsed),
                );
            },
            _ => {},
        }
    }
}

/// A session that ran from the arrival of its client to its end, with the
/// pool to itself, leaves every backend with the load it found: whatever
/// the events, the one selection it may have made is met by one record.
pub proof fn law_closed_session_leaves_no_load(
    confs: Seq<ConfView>,
    sessions: Seq<Session>,
    events: Seq<Event>,
    actions: Seq<Action>,
)
    requires
        is_run(confs, sessions, events, actions),
        confs[0].wf(),
        sessions[0] is Waiting,
        sessions.last() is Closed,
    ensures
        same_loads(confs[0], confs.last()),
{
    lemma_run_so_far(confs, sessions, events, actions, events.len() as int);
}

/// After an outcome that is no success the failure clock of the backend
/// shows the seconds that the session took, which is not zero for a session
/// of a second or more; the next success on that backend sets it to zero.
pub proof fn law_failure_clock(conf: ConfView, handle: BackendHandle, seconds: u64)
    requires
        conf.serving(handle) is Some,
        seconds > 0,
    ensures
        conf.recorded(handle, Some(seconds)).serving(handle) == conf.serving(handle),
        conf.recorded(handle, Some(seconds)).backends[conf.serving(handle)->0].last_failure
            == seconds,
        conf.recorded(handle, Some(seconds)).backends[conf.serving(handle)->0].last_failure != 0,
        conf.recorded(handle, Some(seconds)).recorded(handle, None).backends[conf.serving(
            handle,
        )->0].last_failure == 0,
{
    let at = conf.serving(handle)->0;
    lemma_serving(conf.recorded(handle, Some(seconds)), handle, at);
}

/// Removing a backend harms no session. One that holds the removed backend
/// still records its outcome, and that record leaves the pool as it is; one
/// that holds another backend records on it as if nothing had been removed.
pub proof fn law_removal_is_safe(
    conf: ConfView,
    handle: BackendHandle,
    other: BackendHandle,
    failed_after: Option<u64>,
)
    requires
        conf.wf(),
        other.endpoint() != handle.endpoint(),
    ensures
        conf.without_backend(handle.endpoint()).serving(handle) is None,
        conf.without_backend(handle.endpoint()).recorded(handle, failed_after)
            == conf.without_backend(handle.endpoint()),
        conf.without_backend(handle.endpoint()).recorded(other, failed_after) == conf.recorded(
            other,
            failed_after,
        ).without_backend(handle.endpoint()),
{
    let address = handle.endpoint();
    let gone = conf.without_backend(address);
    let told = conf.recorded(other, failed_after);
    // A record changes no address, so the backend to remove stands where it stood.
    assert forall|k: int| 0 <= k < conf.backends.len() implies #[trigger] told.backends[k].address
        == conf.backends[k].address by {}
    match conf.position(address) {
        None => {
            assert forall|k: int| !told.first_at(address, k) by {
                if told.first_at(address, k) {
                    assert(conf.first_at(address, k));
                }
            }
            assert forall|k: int| !conf.serving_at(handle, k) by {
                if conf.serving_at(handle, k) {
                    let first = choose|i: int|
                        0 <= i < conf.backends.len() && conf.backends[i].address == address;
                    assert(conf.first_at(address, first));
                }
            }
        },
        Some(p) => {
            // What is left of the pool is the pool with the places behind `p` moved up.
            assert forall|k: int| 0 <= k < gone.backends.len() implies #[trigger] gone.backends[k]
                == conf.backends[if k < p { k } else { k + 1 }] by {}
            assert(told.first_at(address, p));
            lemma_position(told, address, p);
            match conf.serving(other) {
                None => {
                    assert forall|k: int| !gone.serving_at(other, k) by {
                        if gone.serving_at(other, k) {
                            assert(conf.serving_at(other, if k < p { k } else { k + 1 }));
                        }
                    }
                },
                Some(k) => {
                    let to = if k < p { k } else { k - 1 };
                    assert(gone.serving_at(other, to));
                    lemma_serving(gone, other, to);
                },
            }
        },
    }
}

/// What happens to the load of a backend: a session is handed the backend, or
/// the outcome of a session on it is recorded.
pub enum Turn {
    Taken,
    Reported(Option<u64>),
}

/// The backend after `turns`, taken from the first to the last.
pub open spec fn replay(backend: BackendView, turns: Seq<Turn>) -> BackendView
    decreases turns.len(),
{
    if turns.len() == 0 {
        backend
    } else {
        let earlier = replay(backend, turns.drop_last());
        match turns.last() {
            Turn::Taken => earlier.begun(),
            Turn::Reported(failed_after) => earlier.settled(failed_after),
        }
    }
}

/// How many of `turns` hand the backend to a session.
pub open spec fn taken(turns: Seq<Turn>) -> nat
    decreases turns.len(),
{
    if turns.len() == 0 {
        0
    } else {
        taken(turns.drop_last()) + if turns.last() is Taken {
            1nat
        } else {
            0nat
        }
    }
}

/// How many of `turns` record an outcome.
pub open spec fn reported(turns: Seq<Turn>) -> nat
    decreases turns.len(),
{
    if turns.len() == 0 {
        0
    } else {
        reported(turns.drop_last()) + if turns.last() is Reported {
            1nat
        } else {
            0nat
        }
    }
}

/// The counter that stands `delta` above `count`, wrapping at the ends of
/// its range.
pub open spec fn count_shifted(count: i32, delta: int) -> i32 {
    ((count - i32::MIN + delta) % 0x1_0000_0000 + i32::MIN) as i32
}

/// The load after `turns` is the load before, shifted by the selections less
/// the records.
proof fn lemma_replayed_load(backend: BackendView, turns: Seq<Turn>)
    ensures
        replay(backend, turns).active_count == count_shifted(
            backend.active_count,
            taken(turns) - reported(turns),
        ),
    decreases turns.len(),
{
    if turns.len() > 0 {
        lemma_replayed_load(backend, turns.drop_last());
    }
}

/// Over any run of sessions on one backend, in any order of their selections
/// and records, as many records as selections leave the load where it was.
/// A selection acts on the backend it picks as `Turn::Taken` does, a record
/// on the backend it is for as `Turn::Reported`.
pub proof fn law_counter_balance(backend: BackendView, turns: Seq<Turn>)
    requires
        taken(turns) == reported(turns),
    ensures
        replay(backend, turns).active_count == backend.active_count,
{
    lemma_replayed_load(backend, turns);
}

} // verus!

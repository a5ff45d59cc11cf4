use headmaster::address::{BindAddress, IpAddress, SocketAddress, ToSocketAddr};
use headmaster::conf::{Conf, ConfBuilder, ConfImpl};
use headmaster::report::Outcome;
use headmaster::time::TimeSpan;
use std::io::{Error, ErrorKind};

fn local(port: u16) -> SocketAddress {
    SocketAddress::new(IpAddress::from_octets(127, 0, 0, 1), port)
}

fn proxy() -> ConfImpl {
    ConfBuilder::new(BindAddress::TcpSocket(local(80))).build()
}

fn refused() -> Error {
    Error::new(ErrorKind::ConnectionRefused, "refused")
}

#[test]
fn a_new_pool_is_empty() {
    let conf = proxy();
    assert!(conf.backends().is_empty());
}

#[test]
fn blacklisted_client_is_not_accepted() {
    let mut builder = ConfBuilder::new(BindAddress::TcpSocket(local(80)));
    builder.blacklist(local(4000)).blacklist(local(4001));
    let conf = builder.build();
    assert!(conf.accept(&local(4000)).is_none());
    assert!(conf.accept(&local(4001)).is_none());
    assert!(conf.accept(&local(4002)).is_some());
}

#[test]
fn blacklisting_twice_is_blacklisting_once() {
    let mut builder = ConfBuilder::new(BindAddress::TcpSocket(local(80)));
    builder.blacklist(local(4000)).blacklist(local(4000));
    let conf = builder.build();
    assert!(conf.accept(&local(4000)).is_none());
    assert!(conf.accept(&local(4001)).is_some());
}

#[test]
fn a_client_off_the_blacklist_is_accepted() {
    let conf = proxy();
    assert!(conf.accept(&local(4000)).is_some());
}

#[test]
fn empty_pool_selects_nothing() {
    let mut conf = proxy();
    let trace = conf.accept(&local(4000)).unwrap();
    assert!(conf.select(&local(4000), trace).is_none());
    assert!(conf.select(&local(4001), trace).is_none());
    assert!(conf.backends().is_empty());
}

#[test]
fn selection_takes_the_first_backend_and_counts_on_it() {
    let mut conf = proxy();
    conf.add_backend(local(9001));
    conf.add_backend(local(9002));
    let trace = conf.accept(&local(4000)).unwrap();
    let first = conf.select(&local(4000), trace).unwrap();
    let second = conf.select(&local(4001), trace).unwrap();
    assert_eq!(*first.address(), local(9001));
    assert_eq!(*second.address(), local(9001));
    assert_eq!(conf.backends()[0].active_count(), 2);
    assert_eq!(conf.backends()[1].active_count(), 0);
}

#[test]
fn selection_moves_on_when_the_first_backend_leaves() {
    let mut conf = proxy();
    conf.add_backend(local(9001));
    conf.add_backend(local(9002));
    conf.remove_backend(local(9001));
    let trace = conf.accept(&local(4000)).unwrap();
    let chosen = conf.select(&local(4000), trace).unwrap();
    assert_eq!(*chosen.address(), local(9002));
}

#[test]
fn a_fresh_backend_has_no_load_and_no_failure() {
    let mut conf = proxy();
    conf.add_backend(local(9001));
    let backend = conf.backends()[0];
    assert_eq!(backend.address(), local(9001));
    assert_eq!(backend.active_count(), 0);
    assert_eq!(backend.last_failure_epoch_seconds(), 0);
    assert!(!backend.unavailable());
}

#[test]
fn adding_an_address_twice_gives_one_backend() {
    let mut conf = proxy();
    conf.add_backend(local(9001));
    conf.add_backend(local(9001));
    assert_eq!(conf.backends().len(), 1);
    assert_eq!(conf.backends()[0].address(), local(9001));
}

#[test]
fn a_duplicate_add_leaves_the_load_alone() {
    let mut conf = proxy();
    conf.add_backend(local(9001));
    let trace = conf.accept(&local(4000)).unwrap();
    conf.select(&local(4000), trace).unwrap();
    conf.add_backend(local(9001));
    assert_eq!(conf.backends().len(), 1);
    assert_eq!(conf.backends()[0].active_count(), 1);
}

#[test]
fn backends_stand_in_the_order_they_were_added() {
    let mut conf = proxy();
    conf.add_backend(local(9003));
    conf.add_backend(local(9001));
    conf.add_backend(local(9002));
    let addresses: Vec<SocketAddress> = conf.backends().iter().map(|b| b.address()).collect();
    assert_eq!(addresses, vec![local(9003), local(9001), local(9002)]);
}

#[test]
fn removing_takes_out_only_the_address_given() {
    let mut conf = proxy();
    conf.add_backend(local(9001));
    conf.add_backend(local(9002));
    conf.add_backend(local(9003));
    conf.remove_backend(local(9002));
    let addresses: Vec<SocketAddress> = conf.backends().iter().map(|b| b.address()).collect();
    assert_eq!(addresses, vec![local(9001), local(9003)]);
}

#[test]
fn removing_an_absent_address_changes_nothing() {
    let mut conf = proxy();
    conf.add_backend(local(9001));
    conf.remove_backend(local(9002));
    assert_eq!(conf.backends().len(), 1);
    assert_eq!(conf.backends()[0].address(), local(9001));
}

#[test]
fn the_load_returns_to_where_it_was_after_as_many_records_as_selections() {
    let mut conf = proxy();
    conf.add_backend(local(9001));
    let trace = conf.accept(&local(4000)).unwrap();
    let mut handles = Vec::new();
    for _ in 0..5 {
        handles.push(conf.select(&local(4000), trace).unwrap());
    }
    assert_eq!(conf.backends()[0].active_count(), 5);
    for (turn, handle) in handles.into_iter().enumerate() {
        if turn % 2 == 0 {
            conf.record_success(&local(4000), handle, 10, 20, trace);
        } else {
            conf.record_read_failure(&local(4000), handle, refused(), trace);
        }
    }
    assert_eq!(conf.backends()[0].active_count(), 0);
}

#[test]
fn selections_and_records_may_interleave() {
    let mut conf = proxy();
    conf.add_backend(local(9001));
    let trace = conf.accept(&local(4000)).unwrap();
    let first = conf.select(&local(4000), trace).unwrap();
    let second = conf.select(&local(4001), trace).unwrap();
    conf.record_success(&local(4000), first, 1, 1, trace);
    assert_eq!(conf.backends()[0].active_count(), 1);
    let third = conf.select(&local(4002), trace).unwrap();
    assert_eq!(conf.backends()[0].active_count(), 2);
    conf.record_write_timeout(&local(4002), third, refused(), trace);
    conf.record_connection_timeout(&local(4001), second, refused(), trace);
    assert_eq!(conf.backends()[0].active_count(), 0);
}

#[test]
fn the_load_wraps_below_zero() {
    let mut conf = proxy();
    conf.add_backend(local(9001));
    let handle = conf.backends()[0].handle();
    conf.record_outcome(
        &local(4000),
        handle,
        Outcome::Success { request_size: 0, response_size: 0 },
        None,
        TimeSpan { secs: 0, nanos: 0 },
    );
    assert_eq!(conf.backends()[0].active_count(), -1);
}

#[test]
fn a_failure_stamps_the_clock_and_a_success_clears_it() {
    let mut conf = proxy();
    conf.add_backend(local(9001));
    let trace = conf.accept(&local(4000)).unwrap();
    let handle = conf.select(&local(4000), trace).unwrap();
    conf.record_outcome(
        &local(4000),
        handle,
        Outcome::ReadTimeout,
        Some(refused()),
        TimeSpan { secs: 3, nanos: 500_000_000 },
    );
    assert_eq!(conf.backends()[0].last_failure_epoch_seconds(), 3);
    let handle = conf.select(&local(4000), trace).unwrap();
    conf.record_outcome(
        &local(4000),
        handle,
        Outcome::Success { request_size: 7, response_size: 9 },
        None,
        TimeSpan { secs: 8, nanos: 0 },
    );
    assert_eq!(conf.backends()[0].last_failure_epoch_seconds(), 0);
    assert_eq!(conf.backends()[0].active_count(), 0);
}

#[test]
fn every_outcome_but_success_stamps_the_clock() {
    let outcomes = [
        Outcome::ConnectionFailure,
        Outcome::ConnectionTimeout,
        Outcome::ReadFailure,
        Outcome::ReadTimeout,
        Outcome::WriteFailure,
        Outcome::WriteTimeout,
    ];
    for (turn, outcome) in outcomes.into_iter().enumerate() {
        let mut conf = proxy();
        conf.add_backend(local(9001));
        let trace = conf.accept(&local(4000)).unwrap();
        let handle = conf.select(&local(4000), trace).unwrap();
        let seconds = turn as u64 + 1;
        let report = conf.record_outcome(
            &local(4000),
            handle,
            outcome,
            Some(refused()),
            TimeSpan { secs: seconds, nanos: 0 },
        );
        assert_eq!(report.outcome, outcome);
        assert_eq!(conf.backends()[0].last_failure_epoch_seconds(), seconds);
        assert_eq!(conf.backends()[0].active_count(), 0);
    }
}

#[test]
fn a_failure_within_the_first_second_stamps_zero() {
    let mut conf = proxy();
    conf.add_backend(local(9001));
    let trace = conf.accept(&local(4000)).unwrap();
    let handle = conf.select(&local(4000), trace).unwrap();
    conf.record_outcome(
        &local(4000),
        handle,
        Outcome::ConnectionFailure,
        Some(refused()),
        TimeSpan { secs: 0, nanos: 999_999_999 },
    );
    assert_eq!(conf.backends()[0].last_failure_epoch_seconds(), 0);
}

#[test]
fn the_clock_shows_the_seconds_of_the_report() {
    let mut conf = proxy();
    conf.add_backend(local(9001));
    let trace = conf.accept(&local(4000)).unwrap();
    let handle = conf.select(&local(4000), trace).unwrap();
    let report = conf.record_connection_failure(&local(4000), handle, refused(), trace);
    assert_eq!(conf.backends()[0].last_failure_epoch_seconds(), report.elapsed.secs);
    assert!(report.elapsed.nanos < 1_000_000_000);
}

#[test]
fn each_record_reports_its_own_outcome() {
    let mut conf = proxy();
    conf.add_backend(local(9001));
    let client = local(4000);
    let trace = conf.accept(&client).unwrap();

    let handle = conf.select(&client, trace).unwrap();
    let report = conf.record_success(&client, handle, 11, 22, trace);
    assert_eq!(report.outcome, Outcome::Success { request_size: 11, response_size: 22 });
    assert_eq!(report.client, client);
    assert_eq!(report.backend, local(9001));
    assert!(report.error.is_none());

    let handle = conf.select(&client, trace).unwrap();
    let report = conf.record_connection_failure(&client, handle, refused(), trace);
    assert_eq!(report.outcome, Outcome::ConnectionFailure);
    assert_eq!(report.error.unwrap().kind(), ErrorKind::ConnectionRefused);

    let handle = conf.select(&client, trace).unwrap();
    let report = conf.record_connection_timeout(&client, handle, refused(), trace);
    assert_eq!(report.outcome, Outcome::ConnectionTimeout);

    let handle = conf.select(&client, trace).unwrap();
    let report = conf.record_read_failure(&client, handle, refused(), trace);
    assert_eq!(report.outcome, Outcome::ReadFailure);

    let handle = conf.select(&client, trace).unwrap();
    let report = conf.record_read_timeout(&client, handle, refused(), trace);
    assert_eq!(report.outcome, Outcome::ReadTimeout);

    let handle = conf.select(&client, trace).unwrap();
    let report = conf.record_write_failure(&client, handle, refused(), trace);
    assert_eq!(report.outcome, Outcome::WriteFailure);

    let handle = conf.select(&client, trace).unwrap();
    let report = conf.record_write_timeout(&client, handle, refused(), trace);
    assert_eq!(report.outcome, Outcome::WriteTimeout);
    assert_eq!(report.client, client);
    assert_eq!(report.backend, local(9001));
    assert!(report.error.is_some());

    assert_eq!(conf.backends()[0].active_count(), 0);
}

#[test]
fn a_session_on_a_removed_backend_still_reports() {
    let mut conf = proxy();
    conf.add_backend(local(9001));
    conf.add_backend(local(9002));
    let client = local(4000);
    let trace = conf.accept(&client).unwrap();
    let handle = conf.select(&client, trace).unwrap();
    conf.remove_backend(local(9001));
    let report = conf.record_success(&client, handle, 3, 4, trace);
    assert_eq!(report.backend, local(9001));
    assert_eq!(report.outcome, Outcome::Success { request_size: 3, response_size: 4 });
    assert_eq!(conf.backends().len(), 1);
    assert_eq!(conf.backends()[0].address(), local(9002));
    assert_eq!(conf.backends()[0].active_count(), 0);
    assert_eq!(conf.backends()[0].last_failure_epoch_seconds(), 0);
}

#[test]
fn removal_leaves_the_sessions_on_other_backends_alone() {
    let mut conf = proxy();
    conf.add_backend(local(9001));
    conf.add_backend(local(9002));
    let client = local(4000);
    let trace = conf.accept(&client).unwrap();
    let other = conf.backends()[1].handle();
    conf.select(&client, trace).unwrap();
    conf.remove_backend(local(9001));
    conf.record_outcome(
        &client,
        other,
        Outcome::WriteFailure,
        Some(refused()),
        TimeSpan { secs: 2, nanos: 0 },
    );
    assert_eq!(conf.backends().len(), 1);
    assert_eq!(conf.backends()[0].address(), local(9002));
    assert_eq!(conf.backends()[0].active_count(), -1);
    assert_eq!(conf.backends()[0].last_failure_epoch_seconds(), 2);
}

#[test]
fn a_session_of_a_removed_backend_does_not_touch_its_successor() {
    let mut conf = proxy();
    conf.add_backend(local(9001));
    let client = local(4000);
    let trace = conf.accept(&client).unwrap();
    let stale = conf.select(&client, trace).unwrap();
    conf.remove_backend(local(9001));
    conf.add_backend(local(9001));
    let fresh = conf.select(&client, trace).unwrap();
    assert_eq!(conf.backends()[0].active_count(), 1);
    conf.record_outcome(
        &client,
        stale,
        Outcome::ReadFailure,
        Some(refused()),
        TimeSpan { secs: 5, nanos: 0 },
    );
    assert_eq!(conf.backends()[0].active_count(), 1);
    assert_eq!(conf.backends()[0].last_failure_epoch_seconds(), 0);
    conf.record_success(&client, fresh, 1, 1, trace);
    assert_eq!(conf.backends()[0].active_count(), 0);
}

#[test]
fn a_backend_knows_the_handle_it_gave() {
    let mut conf = proxy();
    conf.add_backend(local(9001));
    conf.add_backend(local(9002));
    let first = conf.backends()[0].handle();
    assert!(conf.backends()[0].serves(&first));
    assert!(!conf.backends()[1].serves(&first));
    assert_eq!(*first.address(), local(9001));
}

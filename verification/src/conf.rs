//! The pool of backends and the policy that the proxy runs by.

use crate::address::{BindAddress, IpAddress, SocketAddress, ToSocketAddr};
use crate::backend::{Backend, BackendHandle, BackendView};
use crate::report::{Outcome, Report};
use crate::time::{elapsed_since, TimeSpan};
use std::time::Instant;
use vstd::prelude::*;

verus! {

/// What a configuration is, as a mathematical value: the policy, and the live
/// backends in the order in which selection sees them.
#[verifier::ext_equal]
pub struct ConfView {
    pub bind_address: BindAddress,
    pub admin_address: BindAddress,
    pub connection_timeout: Option<TimeSpan>,
    pub read_timeout: Option<TimeSpan>,
    pub write_timeout: Option<TimeSpan>,
    pub backends: Seq<BackendView>,
    pub blacklist: Set<SocketAddress>,
    /// The serial number of the next backend to join.
    pub next_serial: u64,
}

/// The serial number after `serial`. The numbers start over after 2^64 of
/// them: until then no two backends that ever joined share one.
pub open spec fn serial_after(serial: u64) -> u64 {
    if serial == u64::MAX {
        0
    } else {
        (serial + 1) as u64
    }
}

/// The bound on connecting to a backend, in milliseconds, unless set otherwise.
pub const DEFAULT_CONNECTION_TIMEOUT_MILLIS: u64 = 5_000;

/// The bound on one read, in milliseconds, unless set otherwise.
pub const DEFAULT_READ_TIMEOUT_MILLIS: u64 = 30_000;

/// The bound on one write, in milliseconds, unless set otherwise.
pub const DEFAULT_WRITE_TIMEOUT_MILLIS: u64 = 120_000;

/// The port that the administrative endpoint takes by default.
pub const DEFAULT_ADMIN_PORT: u16 = 8000;

/// The port that it takes where the proxy itself listens on the default one.
pub const ALTERNATE_ADMIN_PORT: u16 = 8001;

/// The administrative endpoint that goes with `bind_address` unless one is
/// set: the same host on the default port, or on the alternate port where
/// the proxy has the default one; for a Unix socket, the default port on
/// every interface.
pub open spec fn default_admin_address(bind_address: BindAddress) -> BindAddress {
    match bind_address {
        BindAddress::TcpSocket(address) => BindAddress::TcpSocket(
            SocketAddress::of(
                address.ip_spec(),
                if address.port_spec() == DEFAULT_ADMIN_PORT {
                    ALTERNATE_ADMIN_PORT
                } else {
                    DEFAULT_ADMIN_PORT
                },
            ),
        ),
        BindAddress::UnixSocket(_) => BindAddress::TcpSocket(
            SocketAddress::of(IpAddress::V4(0), DEFAULT_ADMIN_PORT),
        ),
    }
}

impl ConfView {
    /// The configuration of a proxy bound to `bind_address` with every
    /// default: the three timeouts set, nobody denied, no backend.
    pub open spec fn initial(bind_address: BindAddress) -> ConfView {
        ConfView {
            bind_address,
            admin_address: default_admin_address(bind_address),
            connection_timeout: Some(TimeSpan::of_millis(DEFAULT_CONNECTION_TIMEOUT_MILLIS)),
            read_timeout: Some(TimeSpan::of_millis(DEFAULT_READ_TIMEOUT_MILLIS)),
            write_timeout: Some(TimeSpan::of_millis(DEFAULT_WRITE_TIMEOUT_MILLIS)),
            backends: Seq::empty(),
            blacklist: Set::empty(),
            next_serial: 0,
        }
    }

    /// No two live backends share an address.
    pub open spec fn wf(self) -> bool {
        forall|i: int, j: int|
            0 <= i < j < self.backends.len() ==> self.backends[i].address
                != self.backends[j].address
    }

    /// Whether `address` is the address of a live backend.
    pub open spec fn has_backend(self, address: SocketAddress) -> bool {
        exists|i: int| 0 <= i < self.backends.len() && self.backends[i].address == address
    }

    /// Whether the first live backend with `address` stands at `i`.
    pub open spec fn first_at(self, address: SocketAddress, i: int) -> bool {
        &&& 0 <= i < self.backends.len()
        &&& self.backends[i].address == address
        &&& forall|j: int| 0 <= j < i ==> self.backends[j].address != address
    }

    /// Where the first live backend with `address` stands.
    pub open spec fn position(self, address: SocketAddress) -> Option<int> {
        if exists|i: int| self.first_at(address, i) {
            Some(choose|i: int| self.first_at(address, i))
        } else {
            None
        }
    }

    /// Whether the first live backend that `handle` was issued for stands at `i`.
    pub open spec fn serving_at(self, handle: BackendHandle, i: int) -> bool {
        &&& 0 <= i < self.backends.len()
        &&& self.backends[i].serves(handle)
        &&& forall|j: int| 0 <= j < i ==> !self.backends[j].serves(handle)
    }

    /// Where the live backend stands that `handle` was issued for; `None` once
    /// it has left the pool.
    pub open spec fn serving(self, handle: BackendHandle) -> Option<int> {
        if exists|i: int| self.serving_at(handle, i) {
            Some(choose|i: int| self.serving_at(handle, i))
        } else {
            None
        }
    }

    /// The backend that the policy picks: the first of the live ones.
    pub open spec fn choice(self) -> Option<int> {
        if self.backends.len() == 0 {
            None
        } else {
            Some(0)
        }
    }

    /// This configuration after a session was handed the backend of the
    /// policy's choice.
    pub open spec fn selected(self) -> ConfView {
        match self.choice() {
            Some(i) => ConfView {
                backends: self.backends.update(i, self.backends[i].begun()),
                ..self
            },
            None => self,
        }
    }

    /// This configuration after `address` was added: unchanged where a live
    /// backend has it, else with a fresh backend behind the others.
    pub open spec fn with_backend(self, address: SocketAddress) -> ConfView {
        if self.has_backend(address) {
            self
        } else {
            ConfView {
                backends: self.backends.push(BackendView::fresh(self.next_serial, address)),
                next_serial: serial_after(self.next_serial),
                ..self
            }
        }
    }

    /// This configuration after `address` was removed: without the first live
    /// backend that has it, unchanged where none has.
    pub open spec fn without_backend(self, address: SocketAddress) -> ConfView {
        match self.position(address) {
            Some(i) => ConfView { backends: self.backends.remove(i), ..self },
            None => self,
        }
    }

    /// This configuration after the outcome of a session on `handle` was
    /// recorded: the backend the handle was issued for is settled; where it
    /// has left the pool, nothing changes.
    pub open spec fn recorded(self, handle: BackendHandle, failed_after: Option<u64>) -> ConfView {
        match self.serving(handle) {
            Some(i) => ConfView {
                backends: self.backends.update(i, self.backends[i].settled(failed_after)),
                ..self
            },
            None => self,
        }
    }
}

/// The position found by a scan is the position of the model.
pub proof fn lemma_position(conf: ConfView, address: SocketAddress, i: int)
    requires
        conf.first_at(address, i),
    ensures
        conf.position(address) == Some(i),
        conf.has_backend(address),
{
    let chosen = choose|k: int| conf.first_at(address, k);
    assert(conf.first_at(address, chosen));
}

/// The backend found by a scan is the backend of the model.
pub proof fn lemma_serving(conf: ConfView, handle: BackendHandle, i: int)
    requires
        conf.serving_at(handle, i),
    ensures
        conf.serving(handle) == Some(i),
{
    let chosen = choose|k: int| conf.serving_at(handle, k);
    assert(conf.serving_at(handle, chosen));
}

/// The views of the backends that a vector holds, in its order.
pub open spec fn views(backends: Seq<Backend>) -> Seq<BackendView> {
    Seq::new(backends.len(), |i: int| backends[i]@)
}

/// Where the first backend with `address` stands in `backends`.
fn find_address(backends: &Vec<Backend>, address: &SocketAddress) -> (found: Option<usize>)
    ensures
        match found {
            Some(i) => {
                &&& i < backends.len()
                &&& backends[i as int]@.address == *address
                &&& forall|j: int| 0 <= j < i ==> backends[j]@.address != *address
            },
            None => forall|j: int| 0 <= j < backends.len() ==> backends[j]@.address != *address,
        },
{
    let mut i: usize = 0;
    while i < backends.len()
        invariant
            i <= backends.len(),
            forall|j: int| 0 <= j < i ==> backends[j]@.address != *address,
        decreases backends.len() - i,
    {
        if backends[i].address() == *address {
            return Some(i);
        }
        i = i + 1;
    }
    None
}

/// Where the first backend stands that `handle` was issued for.
fn find_serving(backends: &Vec<Backend>, handle: &BackendHandle) -> (found: Option<usize>)
    ensures
        match found {
            Some(i) => {
                &&& i < backends.len()
                &&& backends[i as int]@.serves(*handle)
                &&& forall|j: int| 0 <= j < i ==> !backends[j]@.serves(*handle)
            },
            None => forall|j: int| 0 <= j < backends.len() ==> !backends[j]@.serves(*handle),
        },
{
    let mut i: usize = 0;
    while i < backends.len()
        invariant
            i <= backends.len(),
            forall|j: int| 0 <= j < i ==> !backends[j]@.serves(*handle),
        decreases backends.len() - i,
    {
        if backends[i].serves(handle) {
            return Some(i);
        }
        i = i + 1;
    }
    None
}

/// Whether `address` stands in `list`.
fn listed(list: &Vec<SocketAddress>, address: &SocketAddress) -> (found: bool)
    ensures
        found == list@.contains(*address),
{
    let mut i: usize = 0;
    while i < list.len()
        invariant
            i <= list.len(),
            forall|j: int| 0 <= j < i ==> list[j] != *address,
        decreases list.len() - i,
    {
        if list[i] == *address {
            return true;
        }
        i = i + 1;
    }
    false
}

/// The contract between the forwarding engine and the policy it runs by.
///
/// `T` is the handle by which a session holds the backend it was given.
pub trait Conf<T: ToSocketAddr> {
    /// What is taken at a client's admission and handed to every later call
    /// for that client.
    type Trace: Copy + Send;

    /// Whether the configuration is in order.
    spec fn valid(&self) -> bool;

    /// Whether `client` is denied service.
    spec fn denies(&self, client: SocketAddress) -> bool;

    /// Whether the pool has no backend to give.
    spec fn exhausted(&self) -> bool;

    /// Where the proxy listens for clients.
    fn bind_address(&self) -> &BindAddress;

    /// Where the proxy listens for its administrator.
    fn admin_address(&self) -> &BindAddress;

    /// Admits a client or turns it away.
    fn accept(&self, remote_address: &SocketAddress) -> (trace: Option<Self::Trace>)
        ensures
            trace is None <==> self.denies(*remote_address),
    ;

    /// Picks the backend that will serve a client; which one is the
    /// policy's to say, but it gives one unless the pool has none.
    fn select(&mut self, remote_address: &SocketAddress, trace: Self::Trace) -> (backend: Option<T>)
        requires
            old(self).valid(),
        ensures
            final(self).valid(),
            backend is None <==> old(self).exhausted(),
    ;

    /// The bound on connecting to a backend; `None` for no bound.
    fn connection_timeout(&self) -> Option<TimeSpan>;

    /// The bound on one read; `None` for no bound.
    fn read_timeout(&self) -> Option<TimeSpan>;

    /// The bound on one write; `None` for no bound.
    fn write_timeout(&self) -> Option<TimeSpan>;

    /// Puts the backend at `backend_address` into the pool.
    fn add_backend(&mut self, backend_address: SocketAddress)
        requires
            old(self).valid(),
        ensures
            final(self).valid(),
    ;

    /// Takes the backend at `backend_address` out of the pool. The sessions
    /// that hold it go on and record their outcome as ever.
    fn remove_backend(&mut self, backend_address: SocketAddress)
        requires
            old(self).valid(),
        ensures
            final(self).valid(),
    ;

    /// Records that a session ended with both directions copied to their
    /// end.
    fn record_success(
        &mut self,
        remote_address: &SocketAddress,
        backend_address: T,
        request_size: u64,
        response_size: u64,
        trace: Self::Trace,
    ) -> (report: Report)
        requires
            old(self).valid(),
        ensures
            final(self).valid(),
            report.client == *remote_address,
            report.backend == backend_address.endpoint(),
            report.outcome == (Outcome::Success { request_size, response_size }),
            report.error is None,
    ;

    /// Records that dialing the backend failed.
    fn record_connection_failure(
        &mut self,
        remote_address: &SocketAddress,
        backend_address: T,
        error: std::io::Error,
        trace: Self::Trace,
    ) -> (report: Report)
        requires
            old(self).valid(),
        ensures
            final(self).valid(),
            report.client == *remote_address,
            report.backend == backend_address.endpoint(),
            report.outcome == Outcome::ConnectionFailure,
            report.error == Some(error),
    ;

    /// Records that dialing the backend ran into its bound.
    fn record_connection_timeout(
        &mut self,
        remote_address: &SocketAddress,
        backend_address: T,
        error: std::io::Error,
        trace: Self::Trace,
    ) -> (report: Report)
        requires
            old(self).valid(),
        ensures
            final(self).valid(),
            report.client == *remote_address,
            report.backend == backend_address.endpoint(),
            report.outcome == Outcome::ConnectionTimeout,
            report.error == Some(error),
    ;

    /// Records that a read from the source of a direction failed.
    fn record_read_failure(
        &mut self,
        remote_address: &SocketAddress,
        backend_address: T,
        error: std::io::Error,
        trace: Self::Trace,
    ) -> (report: Report)
        requires
            old(self).valid(),
        ensures
            final(self).valid(),
            report.client == *remote_address,
            report.backend == backend_address.endpoint(),
            report.outcome == Outcome::ReadFailure,
            report.error == Some(error),
    ;

    /// Records that a read from the source of a direction ran into its bound.
    fn record_read_timeout(
        &mut self,
        remote_address: &SocketAddress,
        backend_address: T,
        error: std::io::Error,
        trace: Self::Trace,
    ) -> (report: Report)
        requires
            old(self).valid(),
        ensures
            final(self).valid(),
            report.client == *remote_address,
            report.backend == backend_address.endpoint(),
            report.outcome == Outcome::ReadTimeout,
            report.error == Some(error),
    ;

    /// Records that a write to the destination of a direction failed.
    fn record_write_failure(
        &mut self,
        remote_address: &SocketAddress,
        backend_address: T,
        error: std::io::Error,
        trace: Self::Trace,
    ) -> (report: Report)
        requires
            old(self).valid(),
        ensures
            final(self).valid(),
            report.client == *remote_address,
            report.backend == backend_address.endpoint(),
            report.outcome == Outcome::WriteFailure,
            report.error == Some(error),
    ;

    /// Records that a write to the destination of a direction ran into its
    /// bound.
    fn record_write_timeout(
        &mut self,
        remote_address: &SocketAddress,
        backend_address: T,
        error: std::io::Error,
        trace: Self::Trace,
    ) -> (report: Report)
        requires
            old(self).valid(),
        ensures
            final(self).valid(),
            report.client == *remote_address,
            report.backend == backend_address.endpoint(),
            report.outcome == Outcome::WriteTimeout,
            report.error == Some(error),
    ;
}

/// Collects the settings of a proxy before it starts.
pub struct ConfBuilder {
    bind_address: BindAddress,
    admin_address: BindAddress,
    connection_timeout: Option<TimeSpan>,
    read_timeout: Option<TimeSpan>,
    write_timeout: Option<TimeSpan>,
    blacklist: Vec<SocketAddress>,
}

impl View for ConfBuilder {
    type V = ConfView;

    /// The configuration that `build` gives.
    closed spec fn view(&self) -> ConfView {
        ConfView {
            bind_address: self.bind_address,
            admin_address: self.admin_address,
            connection_timeout: self.connection_timeout,
            read_timeout: self.read_timeout,
            write_timeout: self.write_timeout,
            backends: Seq::empty(),
            blacklist: self.blacklist@.to_set(),
            next_serial: 0,
        }
    }
}

impl ConfBuilder {
    /// Starts from the defaults for a proxy bound to `bind_address`.
    pub fn new(bind_address: BindAddress) -> (builder: ConfBuilder)
        ensures
            builder@ == ConfView::initial(bind_address),
    {
        let builder = ConfBuilder {
            admin_address: Self::admin_address_from(&bind_address),
            bind_address,
            connection_timeout: Some(TimeSpan::from_millis(DEFAULT_CONNECTION_TIMEOUT_MILLIS)),
            read_timeout: Some(TimeSpan::from_millis(DEFAULT_READ_TIMEOUT_MILLIS)),
            write_timeout: Some(TimeSpan::from_millis(DEFAULT_WRITE_TIMEOUT_MILLIS)),
            blacklist: Vec::new(),
        };
        builder
    }

    /// Sets the administrative endpoint.
    pub fn admin_address(&mut self, admin_address: BindAddress) -> (builder: &mut Self)
        ensures
            builder@ == (ConfView { admin_address, ..old(self)@ }),
            *final(self) == *final(builder),
    {
        self.admin_address = admin_address;
        self
    }

    /// Leaves connecting to a backend unbounded.
    pub fn no_connection_timeout(&mut self) -> (builder: &mut Self)
        ensures
            builder@ == (ConfView { connection_timeout: None, ..old(self)@ }),
            *final(self) == *final(builder),
    {
        self.connection_timeout = None;
        self
    }

    /// Bounds connecting to a backend by `timeout`.
    pub fn connection_timeout(&mut self, timeout: TimeSpan) -> (builder: &mut Self)
        ensures
            builder@ == (ConfView { connection_timeout: Some(timeout), ..old(self)@ }),
            *final(self) == *final(builder),
    {
        self.connection_timeout = Some(timeout);
        self
    }

    /// Leaves reads unbounded.
    pub fn no_read_timeout(&mut self) -> (builder: &mut Self)
        ensures
            builder@ == (ConfView { read_timeout: None, ..old(self)@ }),
            *final(self) == *final(builder),
    {
        self.read_timeout = None;
        self
    }

    /// Bounds each read by `timeout`.
    pub fn read_timeout(&mut self, timeout: TimeSpan) -> (builder: &mut Self)
        ensures
            builder@ == (ConfView { read_timeout: Some(timeout), ..old(self)@ }),
            *final(self) == *final(builder),
    {
        self.read_timeout = Some(timeout);
        self
    }

    /// Leaves writes unbounded.
    pub fn no_write_timeout(&mut self) -> (builder: &mut Self)
        ensures
            builder@ == (ConfView { write_timeout: None, ..old(self)@ }),
            *final(self) == *final(builder),
    {
        self.write_timeout = None;
        self
    }

    /// Bounds each write by `timeout`.
    pub fn write_timeout(&mut self, timeout: TimeSpan) -> (builder: &mut Self)
        ensures
            builder@ == (ConfView { write_timeout: Some(timeout), ..old(self)@ }),
            *final(self) == *final(builder),
    {
        self.write_timeout = Some(timeout);
        self
    }

    /// Denies service to the client at `remote_address`.
    pub fn blacklist(&mut self, remote_address: SocketAddress) -> (builder: &mut Self)
        ensures
            builder@ == (ConfView {
                blacklist: old(self)@.blacklist.insert(remote_address),
                ..old(self)@
            }),
            *final(self) == *final(builder),
    {
        if !listed(&self.blacklist, &remote_address) {
            self.blacklist.push(remote_address);
            proof {
                old(self).blacklist@.lemma_push_to_set_commute(remote_address);
            }
        }
        self
    }

    /// The configuration collected so far, with an empty pool.
    pub fn build(&self) -> (conf: ConfImpl)
        ensures
            conf@ == self@,
            conf@.wf(),
    {
        let mut blacklist: Vec<SocketAddress> = Vec::new();
        let mut i: usize = 0;
        while i < self.blacklist.len()
            invariant
                i <= self.blacklist.len(),
                blacklist@ == self.blacklist@.take(i as int),
            decreases self.blacklist.len() - i,
        {
            blacklist.push(self.blacklist[i]);
            i = i + 1;
        }
        proof {
            assert(blacklist@ =~= self.blacklist@);
        }
        ConfImpl {
            bind_address: self.bind_address,
            admin_address: self.admin_address,
            connection_timeout: self.connection_timeout,
            read_timeout: self.read_timeout,
            write_timeout: self.write_timeout,
            backends: Vec::new(),
            next_serial: 0,
            blacklist,
        }
    }

    /// The administrative endpoint that goes with `bind_address` by default.
    pub fn admin_address_from(bind_address: &BindAddress) -> (admin_address: BindAddress)
        ensures
            admin_address == default_admin_address(*bind_address),
    {
        match bind_address {
            BindAddress::TcpSocket(address) => BindAddress::TcpSocket(
                SocketAddress::new(
                    address.ip(),
                    if address.port() == DEFAULT_ADMIN_PORT {
                        ALTERNATE_ADMIN_PORT
                    } else {
                        DEFAULT_ADMIN_PORT
                    },
                ),
            ),
            BindAddress::UnixSocket(_) => BindAddress::TcpSocket(
                SocketAddress::new(IpAddress::from_octets(0, 0, 0, 0), DEFAULT_ADMIN_PORT),
            ),
        }
    }
}

/// The configuration of a running proxy: its policy and its pool.
///
/// It is a value under exclusive access: whoever changes the pool or counts
/// a session on a backend holds it alone. A program whose tasks share one
/// configuration keeps it behind a lock.
pub struct ConfImpl {
    bind_address: BindAddress,
    admin_address: BindAddress,
    connection_timeout: Option<TimeSpan>,
    read_timeout: Option<TimeSpan>,
    write_timeout: Option<TimeSpan>,
    backends: Vec<Backend>,
    next_serial: u64,
    blacklist: Vec<SocketAddress>,
}

impl View for ConfImpl {
    type V = ConfView;

    closed spec fn view(&self) -> ConfView {
        ConfView {
            bind_address: self.bind_address,
            admin_address: self.admin_address,
            connection_timeout: self.connection_timeout,
            read_timeout: self.read_timeout,
            write_timeout: self.write_timeout,
            backends: views(self.backends@),
            blacklist: self.blacklist@.to_set(),
            next_serial: self.next_serial,
        }
    }
}

impl ConfImpl {
    /// The policy: which of `backends` serves the next client.
    fn backend(backends: &Vec<Backend>) -> (chosen: Option<usize>)
        ensures
            match chosen {
                Some(i) => backends.len() > 0 && i == 0,
                None => backends.len() == 0,
            },
    {
        if backends.len() > 0 {
            Some(0)
        } else {
            None
        }
    }

    /// The live backends, in the order in which selection sees them.
    pub fn backends(&self) -> (backends: &Vec<Backend>)
        ensures
            views(backends@) == self@.backends,
    {
        &self.backends
    }

    /// Records the outcome of a session that took `elapsed`: the backend that
    /// `backend_address` was issued for has one session less and its failure
    /// clock set by `outcome`; the report carries what was given.
    pub fn record_outcome(
        &mut self,
        remote_address: &SocketAddress,
        backend_address: BackendHandle,
        outcome: Outcome,
        error: Option<std::io::Error>,
        elapsed: TimeSpan,
    ) -> (report: Report)
        requires
            old(self)@.wf(),
        ensures
            final(self)@.wf(),
            final(self)@ == old(self)@.recorded(backend_address, outcome.failed_after(elapsed)),
            report.client == *remote_address,
            report.backend == backend_address.endpoint(),
            report.outcome == outcome,
            report.error == error,
            report.elapsed == elapsed,
    {
        let failed_after = if outcome.succeeded() {
            None
        } else {
            Some(elapsed.as_secs())
        };
        match find_serving(&self.backends, &backend_address) {
            Some(i) => {
                let mut backend = self.backends[i];
                backend.settle(failed_after);
                self.backends.set(i, backend);
                proof {
                    lemma_serving(old(self)@, backend_address, i as int);
                    assert(self@.backends =~= old(self)@.backends.update(
                        i as int,
                        old(self)@.backends[i as int].settled(failed_after),
                    ));
                }
            },
            None => {},
        }
        Report {
            client: *remote_address,
            backend: *backend_address.address(),
            outcome,
            error,
            elapsed,
        }
    }
}

impl Conf<BackendHandle> for ConfImpl {
    type Trace = Instant;

    open spec fn valid(&self) -> bool {
        self@.wf()
    }

    open spec fn denies(&self, client: SocketAddress) -> bool {
        self@.blacklist.contains(client)
    }

    open spec fn exhausted(&self) -> bool {
        self@.backends.len() == 0
    }

    fn bind_address(&self) -> (address: &BindAddress)
        ensures
            *address == self@.bind_address,
    {
        &self.bind_address
    }

    fn admin_address(&self) -> (address: &BindAddress)
        ensures
            *address == self@.admin_address,
    {
        &self.admin_address
    }

    /// Turns away the clients on the blacklist; admits every other with the
    /// reading of the clock at its admission.
    fn accept(&self, remote_address: &SocketAddress) -> (trace: Option<Instant>) {
        let start_time = Instant::now();
        if listed(&self.blacklist, remote_address) {
            None
        } else {
            Some(start_time)
        }
    }

    /// Hands out the backend of the policy's choice and counts the session on
    /// it; hands out nothing where the pool is empty.
    fn select(&mut self, remote_address: &SocketAddress, trace: Instant) -> (backend: Option<
        BackendHandle,
    >)
        ensures
            final(self)@ == old(self)@.selected(),
            match old(self)@.choice() {
                Some(i) => backend matches Some(handle) && old(self)@.backends[i].serves(handle),
                None => backend is None,
            },
    {
        match Self::backend(&self.backends) {
            Some(i) => {
                let mut chosen = self.backends[i];
                let handle = chosen.handle();
                chosen.begin();
                self.backends.set(i, chosen);
                proof {
                    assert(self@.backends =~= old(self)@.backends.update(
                        i as int,
                        old(self)@.backends[i as int].begun(),
                    ));
                }
                Some(handle)
            },
            None => None,
        }
    }

    fn connection_timeout(&self) -> (timeout: Option<TimeSpan>)
        ensures
            timeout == self@.connection_timeout,
    {
        self.connection_timeout
    }

    fn read_timeout(&self) -> (timeout: Option<TimeSpan>)
        ensures
            timeout == self@.read_timeout,
    {
        self.read_timeout
    }

    fn write_timeout(&self) -> (timeout: Option<TimeSpan>)
        ensures
            timeout == self@.write_timeout,
    {
        self.write_timeout
    }

    /// Adds a backend for `backend_address`, unless a live one has it.
    fn add_backend(&mut self, backend_address: SocketAddress)
        ensures
            final(self)@ == old(self)@.with_backend(backend_address),
    {
        match find_address(&self.backends, &backend_address) {
            Some(i) => {
                proof {
                    assert(old(self)@.backends[i as int].address == backend_address);
                }
            },
            None => {
                let backend = Backend::init(self.next_serial, backend_address);
                self.next_serial = self.next_serial.wrapping_add(1);
                self.backends.push(backend);
                proof {
                    assert(self@.backends =~= old(self)@.backends.push(
                        BackendView::fresh(old(self)@.next_serial, backend_address),
                    ));
                }
            },
        }
    }

    /// Removes the backend of `backend_address`, if a live one has it.
    fn remove_backend(&mut self, backend_address: SocketAddress)
        ensures
            final(self)@ == old(self)@.without_backend(backend_address),
    {
        match find_address(&self.backends, &backend_address) {
            Some(pos) => {
                self.backends.remove(pos);
                proof {
                    lemma_position(old(self)@, backend_address, pos as int);
                    assert(self@.backends =~= old(self)@.backends.remove(pos as int));
                }
            },
            None => {},
        }
    }

    fn record_success(
        &mut self,
        remote_address: &SocketAddress,
        backend_address: BackendHandle,
        request_size: u64,
        response_size: u64,
        trace: Instant,
    ) -> (report: Report)
        ensures
            final(self)@ == old(self)@.recorded(backend_address, None),
    {
        let time = elapsed_since(trace);
        self.record_outcome(
            remote_address,
            backend_address,
            Outcome::Success { request_size, response_size },
            None,
            time,
        )
    }

    fn record_connection_failure(
        &mut self,
        remote_address: &SocketAddress,
        backend_address: BackendHandle,
        error: std::io::Error,
        trace: Instant,
    ) -> (report: Report)
        ensures
            final(self)@ == old(self)@.recorded(backend_address, Some(report.elapsed.secs)),
    {
        let time = elapsed_since(trace);
        self.record_outcome(
            remote_address,
            backend_address,
            Outcome::ConnectionFailure,
            Some(error),
            time,
        )
    }

    fn record_connection_timeout(
        &mut self,
        remote_address: &SocketAddress,
        backend_address: BackendHandle,
        error: std::io::Error,
        trace: Instant,
    ) -> (report: Report)
        ensures
            final(self)@ == old(self)@.recorded(backend_address, Some(report.elapsed.secs)),
    {
        let time = elapsed_since(trace);
        self.record_outcome(
            remote_address,
            backend_address,
            Outcome::ConnectionTimeout,
            Some(error),
            time,
        )
    }

    fn record_read_failure(
        &mut self,
        remote_address: &SocketAddress,
        backend_address: BackendHandle,
        error: std::io::Error,
        trace: Instant,
    ) -> (report: Report)
        ensures
            final(self)@ == old(self)@.recorded(backend_address, Some(report.elapsed.secs)),
    {
        let time = elapsed_since(trace);
        self.record_outcome(remote_address, backend_address, Outcome::ReadFailure, Some(error), time)
    }

    fn record_read_timeout(
        &mut self,
        remote_address: &SocketAddress,
        backend_address: BackendHandle,
        error: std::io::Error,
        trace: Instant,
    ) -> (report: Report)
        ensures
            final(self)@ == old(self)@.recorded(backend_address, Some(report.elapsed.secs)),
    {
        let time = elapsed_since(trace);
        self.record_outcome(remote_address, backend_address, Outcome::ReadTimeout, Some(error), time)
    }

    fn record_write_failure(
        &mut self,
        remote_address: &SocketAddress,
        backend_address: BackendHandle,
        error: std::io::Error,
        trace: Instant,
    ) -> (report: Report)
        ensures
            final(self)@ == old(self)@.recorded(backend_address, Some(report.elapsed.secs)),
    {
        let time = elapsed_since(trace);
        self.record_outcome(
            remote_address,
            backend_address,
            Outcome::WriteFailure,
            Some(error),
            time,
        )
    }

    fn record_write_timeout(
        &mut self,
        remote_address: &SocketAddress,
        backend_address: BackendHandle,
        error: std::io::Error,
        trace: Instant,
    ) -> (report: Report)
        ensures
            final(self)@ == old(self)@.recorded(backend_address, Some(report.elapsed.secs)),
    {
        let time = elapsed_since(trace);
        self.record_outcome(
            remote_address,
            backend_address,
            Outcome::WriteTimeout,
            Some(error),
            time,
        )
    }
}

} // verus!

//! The session engine: one connection from handshake to its end.
//!
//! A [`Session`] decides and never waits. Its driver connects to the server,
//! reports each thing that happens as an [`Event`] to [`Session::step`] and
//! carries out the [`Action`] it gets back:
//!
//! * once connected, send this client's version and read the server's;
//! * where the two are equal, answer the server's challenge and read its
//!   verdict;
//! * once authenticated, wait for the next update, with updates taking
//!   precedence over the keepalive deadline, and give each update its effect.
//!
//! Every failure ends the session: there is no retry and no way back.

pub use crate::protocol::Error;

use crate::keepalive::Keepalive;
use crate::protocol::{AuthStatus, Failure, Update, Version};
use crate::registry::Registry;
use vstd::prelude::*;

verus! {

/// An effect that the driver is carrying out and that may fail.
#[derive(Clone, Copy, Debug, PartialEq, Eq)]
pub enum Pending {
    /// The device with this identifier is being built.
    Build(u64),
    /// An input event is being written to a device.
    Write,
    /// The answer to a ping is being sent and flushed.
    Pong,
}

/// Where a session stands.
#[derive(Clone, Copy, Debug, PartialEq, Eq)]
pub enum Phase {
    /// The transport is being set up.
    Connecting,
    /// This client's version is on its way and the server's is awaited.
    Negotiating,
    /// The server's verdict on the answer to its challenge is awaited.
    Authenticating,
    /// Steady state, between two updates.
    Ready,
    /// Steady state, while an update's effect is carried out.
    Busy(Pending),
    /// The session has ended.
    Closed,
}

/// What the driver reports to the session.
#[derive(Debug, PartialEq, Eq)]
pub enum Event<D, E, F> {
    /// The encrypted transport stands.
    Connected,
    /// The server announced its version.
    Version(Version),
    /// The server gave its verdict on the answer to its challenge.
    Status(AuthStatus),
    /// An update was read in full.
    Update(Update<D, E>),
    /// The wait ended and no update had arrived.
    Silence,
    /// The action handed out last was carried out.
    Done,
    /// The action handed out last failed.
    Failed(F),
}

/// What the driver is to do next.
#[derive(Debug, PartialEq, Eq)]
pub enum Action<D, E, F> {
    /// Send this version, flush, and read the server's version.
    Negotiate(Version),
    /// Read the server's challenge, answer it with the shared secret, flush,
    /// and read the server's verdict.
    Authenticate,
    /// Wait for the next update, for `timeout` at most. An update that is
    /// ready is taken even if the time is up.
    Await { timeout: u64 },
    /// Overwrite the active state.
    SetActive(bool),
    /// Build the device and keep it under `id`, in place of any device that
    /// is kept under `id` already.
    Build { id: u64, descriptor: D },
    /// Let go of the device `id`.
    Release { id: u64 },
    /// Write `event` to the device `id`.
    Write { id: u64, event: E },
    /// Send a pong and flush. `elapsed` is the time since the previous ping,
    /// or since steady state began.
    Pong { elapsed: u64 },
    /// Let go of every device and give the connection up with this error.
    Stop(Error<F>),
    /// The session was not waiting for this event. Nothing has changed and
    /// nothing is to be done.
    Ignored,
}

/// A session as the contracts see it.
pub struct SessionView {
    pub version: Version,
    pub phase: Phase,
    pub devices: Set<u64>,
    pub keepalive: Keepalive,
}

impl SessionView {
    /// A session that has yet to connect.
    pub open spec fn initial(version: Version, interval: u64) -> SessionView {
        SessionView {
            version,
            phase: Phase::Connecting,
            devices: Set::empty(),
            keepalive: Keepalive { interval, since: 0 },
        }
    }

    /// The session in another phase.
    pub open spec fn moved_to(self, phase: Phase) -> SessionView {
        SessionView { phase, ..self }
    }

    /// The session after its end: closed, with every device released.
    pub open spec fn ended(self) -> SessionView {
        SessionView { phase: Phase::Closed, devices: Set::empty(), ..self }
    }

    /// The action that sends the driver back to waiting at `now`.
    pub open spec fn wait<D, E, F>(self, now: u64) -> Action<D, E, F> {
        Action::Await { timeout: self.keepalive.remaining_at(now) }
    }

    /// The error that a failure of the pending effect ends the session with:
    /// a device error for the device backend, a network error for the reply
    /// to a ping.
    pub open spec fn failure_of<F>(pending: Pending, failure: F) -> Error<F> {
        match pending {
            Pending::Build(_) => Error::Input(failure),
            Pending::Write => Error::Input(failure),
            Pending::Pong => Error::Network(Failure::Io(failure)),
        }
    }

    /// While the transport is set up: once it stands, this client's version
    /// goes out.
    pub open spec fn on_connecting<D, E, F>(self, event: Event<D, E, F>) -> (
        SessionView,
        Action<D, E, F>,
    ) {
        match event {
            Event::Connected => (
                self.moved_to(Phase::Negotiating),
                Action::Negotiate(self.version),
            ),
            Event::Failed(failure) => (
                self.ended(),
                Action::Stop(Error::Network(Failure::Io(failure))),
            ),
            _ => (self, Action::Ignored),
        }
    }

    /// While the versions are exchanged: the handshake goes on where the
    /// server's version equals this client's, and ends the session where it
    /// does not.
    pub open spec fn on_negotiating<D, E, F>(self, event: Event<D, E, F>) -> (
        SessionView,
        Action<D, E, F>,
    ) {
        match event {
            Event::Version(version) => if version == self.version {
                (self.moved_to(Phase::Authenticating), Action::Authenticate)
            } else {
                (
                    self.ended(),
                    Action::Stop(Error::Version { server: self.version, client: version }),
                )
            },
            Event::Failed(failure) => (
                self.ended(),
                Action::Stop(Error::Network(Failure::Io(failure))),
            ),
            _ => (self, Action::Ignored),
        }
    }

    /// While the server judges the answer to its challenge: steady state
    /// begins at `now` where the answer passed, and the session ends where it
    /// did not.
    pub open spec fn on_authenticating<D, E, F>(self, event: Event<D, E, F>, now: u64) -> (
        SessionView,
        Action<D, E, F>,
    ) {
        match event {
            Event::Status(status) => if status == AuthStatus::Passed {
                (
                    SessionView {
                        phase: Phase::Ready,
                        keepalive: self.keepalive.reset_at(now),
                        ..self
                    },
                    Action::Await { timeout: self.keepalive.interval },
                )
            } else {
                (self.ended(), Action::Stop(Error::Auth))
            },
            Event::Failed(failure) => (
                self.ended(),
                Action::Stop(Error::Network(Failure::Io(failure))),
            ),
            _ => (self, Action::Ignored),
        }
    }

    /// The effect of one update in steady state.
    pub open spec fn on_update<D, E, F>(self, update: Update<D, E>, now: u64) -> (
        SessionView,
        Action<D, E, F>,
    ) {
        match update {
            Update::Control { active } => (self, Action::SetActive(active)),
            Update::CreateDevice { id, descriptor } => (
                self.moved_to(Phase::Busy(Pending::Build(id))),
                Action::Build { id, descriptor },
            ),
            Update::DestroyDevice { id } => if self.devices.contains(id) {
                (SessionView { devices: self.devices.remove(id), ..self }, Action::Release { id })
            } else {
                (self, self.wait(now))
            },
            Update::Event { id, event } => if self.devices.contains(id) {
                (self.moved_to(Phase::Busy(Pending::Write)), Action::Write { id, event })
            } else {
                (self.ended(), Action::Stop(Error::Network(Failure::InvalidData)))
            },
            Update::Ping => (
                SessionView {
                    phase: Phase::Busy(Pending::Pong),
                    keepalive: self.keepalive.reset_at(now),
                    ..self
                },
                Action::Pong { elapsed: self.keepalive.elapsed_at(now) },
            ),
        }
    }

    /// Between two updates: an update is given its effect, whenever it
    /// comes. Silence ends the session once the deadline has come. A read
    /// that fails ends it with a network error.
    pub open spec fn on_ready<D, E, F>(self, event: Event<D, E, F>, now: u64) -> (
        SessionView,
        Action<D, E, F>,
    ) {
        match event {
            Event::Update(update) => self.on_update(update, now),
            Event::Silence => if self.keepalive.expired_at(now) {
                (self.ended(), Action::Stop(Error::Network(Failure::TimedOut)))
            } else {
                (self, self.wait(now))
            },
            Event::Done => (self, self.wait(now)),
            Event::Failed(failure) => (
                self.ended(),
                Action::Stop(Error::Network(Failure::Io(failure))),
            ),
            _ => (self, Action::Ignored),
        }
    }

    /// While an effect is carried out: its success leads back to waiting,
    /// and brings the device to life where it was a build. Its failure ends
    /// the session.
    pub open spec fn on_busy<D, E, F>(self, pending: Pending, event: Event<D, E, F>, now: u64) -> (
        SessionView,
        Action<D, E, F>,
    ) {
        match event {
            Event::Done => (
                SessionView {
                    phase: Phase::Ready,
                    devices: match pending {
                        Pending::Build(id) => self.devices.insert(id),
                        _ => self.devices,
                    },
                    ..self
                },
                self.wait(now),
            ),
            Event::Failed(failure) => (
                self.ended(),
                Action::Stop(Self::failure_of(pending, failure)),
            ),
            _ => (self, Action::Ignored),
        }
    }

    /// The session after `event`, reported at `now`, and the action that
    /// answers it.
    pub open spec fn step<D, E, F>(self, event: Event<D, E, F>, now: u64) -> (
        SessionView,
        Action<D, E, F>,
    ) {
        match self.phase {
            Phase::Connecting => self.on_connecting(event),
            Phase::Negotiating => self.on_negotiating(event),
            Phase::Authenticating => self.on_authenticating(event, now),
            Phase::Ready => self.on_ready(event, now),
            Phase::Busy(pending) => self.on_busy(pending, event, now),
            Phase::Closed => (self, Action::Ignored),
        }
    }

    /// The actions that answer `events`, each a pair of the instant at which
    /// an event is reported and the event, and how the session stands after
    /// them: with the error it ended with, or still alive when the events ran
    /// out. Nothing is taken in after the end.
    pub open spec fn replay<D, E, F>(self, events: Seq<(u64, Event<D, E, F>)>) -> (
        Seq<Action<D, E, F>>,
        Result<(), Error<F>>,
    )
        decreases events.len(),
    {
        if events.len() == 0 {
            (Seq::empty(), Ok(()))
        } else {
            let (next, action) = self.step(events[0].1, events[0].0);
            match action {
                Action::Stop(error) => (Seq::empty(), Err(error)),
                _ => {
                    let (actions, result) = next.replay(events.drop_first());
                    (seq![action] + actions, result)
                },
            }
        }
    }
}

/// The state of one connection: its phase, its keepalive deadline and the
/// devices it has brought to life.
pub struct Session {
    version: Version,
    phase: Phase,
    devices: Registry,
    keepalive: Keepalive,
}

impl View for Session {
    type V = SessionView;

    closed spec fn view(&self) -> SessionView {
        SessionView {
            version: self.version,
            phase: self.phase,
            devices: self.devices@,
            keepalive: self.keepalive,
        }
    }
}

impl Session {
    /// A session that speaks `version` and gives the server up after
    /// `interval` without a ping. The interval and every instant that the
    /// session is told are counted in one unit on one monotonic clock of the
    /// driver's choice. The driver sets up the transport first and reports
    /// [`Event::Connected`] or [`Event::Failed`].
    pub fn new(version: Version, interval: u64) -> (session: Session)
        ensures
            session@ == SessionView::initial(version, interval),
    {
        Session {
            version,
            phase: Phase::Connecting,
            devices: Registry::new(),
            keepalive: Keepalive::new(interval, 0),
        }
    }

    /// Where the session stands.
    pub fn phase(&self) -> (phase: Phase)
        ensures
            phase == self@.phase,
    {
        self.phase
    }

    /// The version this session was opened with.
    pub fn version(&self) -> (version: Version)
        ensures
            version == self@.version,
    {
        self.version
    }

    /// The keepalive deadline as it stands.
    pub fn keepalive(&self) -> (keepalive: Keepalive)
        ensures
            keepalive == self@.keepalive,
    {
        self.keepalive
    }

    /// Whether a device exists under `id`.
    pub fn is_registered(&self, id: u64) -> (registered: bool)
        ensures
            registered == self@.devices.contains(id),
    {
        self.devices.contains(id)
    }

    /// The number of devices that exist.
    pub fn device_count(&self) -> (count: usize)
        ensures
            count == self@.devices.len(),
    {
        self.devices.len()
    }

    /// Takes in one event, reported at `now`, and says what to do next.
    pub fn step<D, E, F>(&mut self, event: Event<D, E, F>, now: u64) -> (action: Action<D, E, F>)
        ensures
            final(self)@ == old(self)@.step(event, now).0,
            action == old(self)@.step(event, now).1,
    {
        match self.phase {
            Phase::Connecting => self.connecting(event),
            Phase::Negotiating => self.negotiating(event),
            Phase::Authenticating => self.authenticating(event, now),
            Phase::Ready => self.ready(event, now),
            Phase::Busy(pending) => self.busy(pending, event, now),
            Phase::Closed => Action::Ignored,
        }
    }

    fn end<D, E, F>(&mut self, error: Error<F>) -> (action: Action<D, E, F>)
        ensures
            final(self)@ == old(self)@.ended(),
            action == Action::<D, E, F>::Stop(error),
    {
        self.phase = Phase::Closed;
        self.devices.clear();
        Action::Stop(error)
    }

    fn wait<D, E, F>(&self, now: u64) -> (action: Action<D, E, F>)
        ensures
            action == self@.wait::<D, E, F>(now),
    {
        Action::Await { timeout: self.keepalive.remaining(now) }
    }

    fn connecting<D, E, F>(&mut self, event: Event<D, E, F>) -> (action: Action<D, E, F>)
        ensures
            final(self)@ == old(self)@.on_connecting(event).0,
            action == old(self)@.on_connecting(event).1,
    {
        match event {
            Event::Connected => {
                self.phase = Phase::Negotiating;
                Action::Negotiate(self.version)
            },
            Event::Failed(failure) => self.end(Error::Network(Failure::Io(failure))),
            _ => Action::Ignored,
        }
    }

    fn negotiating<D, E, F>(&mut self, event: Event<D, E, F>) -> (action: Action<D, E, F>)
        ensures
            final(self)@ == old(self)@.on_negotiating(event).0,
            action == old(self)@.on_negotiating(event).1,
    {
        match event {
            Event::Version(version) => {
                if version == self.version {
                    self.phase = Phase::Authenticating;
                    Action::Authenticate
                } else {
                    let own: Version = self.version;
                    self.end(Error::Version { server: own, client: version })
                }
            },
            Event::Failed(failure) => self.end(Error::Network(Failure::Io(failure))),
            _ => Action::Ignored,
        }
    }

    fn authenticating<D, E, F>(&mut self, event: Event<D, E, F>, now: u64) -> (action: Action<
        D,
        E,
        F,
    >)
        ensures
            final(self)@ == old(self)@.on_authenticating(event, now).0,
            action == old(self)@.on_authenticating(event, now).1,
    {
        match event {
            Event::Status(status) => {
                if status == AuthStatus::Passed {
                    self.phase = Phase::Ready;
                    self.keepalive.reset(now);
                    Action::Await { timeout: self.keepalive.interval }
                } else {
                    self.end(Error::Auth)
                }
            },
            Event::Failed(failure) => self.end(Error::Network(Failure::Io(failure))),
            _ => Action::Ignored,
        }
    }

    fn update<D, E, F>(&mut self, update: Update<D, E>, now: u64) -> (action: Action<D, E, F>)
        ensures
            final(self)@ == old(self)@.on_update::<D, E, F>(update, now).0,
            action == old(self)@.on_update::<D, E, F>(update, now).1,
    {
        match update {
            Update::Control { active } => Action::SetActive(active),
            Update::CreateDevice { id, descriptor } => {
                self.phase = Phase::Busy(Pending::Build(id));
                Action::Build { id, descriptor }
            },
            Update::DestroyDevice { id } => {
                if self.devices.remove(id) {
                    Action::Release { id }
                } else {
                    assert(self.devices@ =~= old(self).devices@);
                    self.wait(now)
                }
            },
            Update::Event { id, event } => {
                if self.devices.contains(id) {
                    self.phase = Phase::Busy(Pending::Write);
                    Action::Write { id, event }
                } else {
                    self.end(Error::Network(Failure::InvalidData))
                }
            },
            Update::Ping => {
                let elapsed: u64 = self.keepalive.elapsed(now);
                self.keepalive.reset(now);
                self.phase = Phase::Busy(Pending::Pong);
                Action::Pong { elapsed }
            },
        }
    }

    fn ready<D, E, F>(&mut self, event: Event<D, E, F>, now: u64) -> (action: Action<D, E, F>)
        ensures
            final(self)@ == old(self)@.on_ready(event, now).0,
            action == old(self)@.on_ready(event, now).1,
    {
        match event {
            Event::Update(update) => self.update(update, now),
            Event::Silence => {
                if self.keepalive.expired(now) {
                    self.end(Error::Network(Failure::TimedOut))
                } else {
                    self.wait(now)
                }
            },
            Event::Done => self.wait(now),
            Event::Failed(failure) => self.end(Error::Network(Failure::Io(failure))),
            _ => Action::Ignored,
        }
    }

    fn busy<D, E, F>(&mut self, pending: Pending, event: Event<D, E, F>, now: u64) -> (action:
        Action<D, E, F>)
        ensures
            final(self)@ == old(self)@.on_busy(pending, event, now).0,
            action == old(self)@.on_busy(pending, event, now).1,
    {
        match event {
            Event::Done => {
                match pending {
                    Pending::Build(id) => {
                        self.devices.insert(id);
                    },
                    _ => {},
                }
                self.phase = Phase::Ready;
                self.wait(now)
            },
            Event::Failed(failure) => {
                let error: Error<F> = match pending {
                    Pending::Build(_) => Error::Input(failure),
                    Pending::Write => Error::Input(failure),
                    Pending::Pong => Error::Network(Failure::Io(failure)),
                };
                self.end(error)
            },
            _ => Action::Ignored,
        }
    }
}

/// What a session did over a sequence of events.
#[derive(Debug, PartialEq, Eq)]
pub struct Outcome<D, E, F> {
    /// The actions handed out before the end, in order.
    pub actions: Vec<Action<D, E, F>>,
    /// The error that the session ended with, or `Ok` where the events ran
    /// out first.
    pub result: Result<(), Error<F>>,
}

/// Runs one session, opened with `version` and `interval`, over `events`:
/// pairs of the instant at which an event is reported and the event. The
/// session takes them in order and stops at its first error.
pub fn run<D, E, F>(version: Version, interval: u64, events: Vec<(u64, Event<D, E, F>)>) -> (outcome:
    Outcome<D, E, F>)
    ensures
        outcome.actions@ == SessionView::initial(version, interval).replay(events@).0,
        outcome.result == SessionView::initial(version, interval).replay(events@).1,
{
    let mut session: Session = Session::new(version, interval);
    let mut actions: Vec<Action<D, E, F>> = Vec::new();
    let ghost all: Seq<(u64, Event<D, E, F>)> = events@;
    let ghost start: SessionView = session@;
    proof {
        assert(all.skip(0) =~= all);
    }
    for item in it: events.into_iter()
        invariant
            it.seq() == all,
            all == events@,
            start == SessionView::initial(version, interval),
            start.replay(all).0 == actions@ + session@.replay(all.skip(it.index() as int)).0,
            start.replay(all).1 == session@.replay(all.skip(it.index() as int)).1,
    {
        let ghost rest: Seq<(u64, Event<D, E, F>)> = all.skip(it.index() as int);
        let (now, event) = item;
        proof {
            assert(rest.drop_first() =~= all.skip(it.index() as int + 1));
        }
        let action: Action<D, E, F> = session.step(event, now);
        match action {
            Action::Stop(error) => {
                return Outcome { actions, result: Err(error) };
            },
            _ => {
                actions.push(action);
            },
        }
    }
    Outcome { actions, result: Ok(()) }
}

} // verus!

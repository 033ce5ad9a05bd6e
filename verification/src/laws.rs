//! What holds of every session, whatever the server sends and whenever.
//!
//! The statements speak of [`SessionView`], the value by which the contracts
//! of [`crate::client::Session`] describe a session.

use crate::client::{Action, Event, Pending, Phase, SessionView};
use crate::protocol::{AuthStatus, Error, Failure, Update, Version};
use vstd::prelude::*;

verus! {

/// Whether the session is in steady state.
pub open spec fn steady(s: SessionView) -> bool {
    s.phase == Phase::Ready || s.phase is Busy
}

/// The session after `events`, each a pair of the instant at which an event
/// is reported and the event.
pub open spec fn after<D, E, F>(s: SessionView, events: Seq<(u64, Event<D, E, F>)>) -> SessionView
    decreases events.len(),
{
    if events.len() == 0 {
        s
    } else {
        after(s.step(events[0].1, events[0].0).0, events.drop_first())
    }
}

/// The writes among `actions`, in order: each as the device and the event.
pub open spec fn writes<D, E, F>(actions: Seq<Action<D, E, F>>) -> Seq<(u64, E)>
    decreases actions.len(),
{
    if actions.len() == 0 {
        Seq::empty()
    } else {
        match actions[0] {
            Action::Write { id, event } => seq![(id, event)] + writes(actions.drop_first()),
            _ => writes(actions.drop_first()),
        }
    }
}

/// What the driver reports while the server sends `inputs` to the device
/// `id`, one after the other, and each is written before the next is read:
/// for every input the update that carries it and then the success of the
/// write. `times` gives the instant of each report, two for every input.
pub open spec fn events_for<D, E, F>(id: u64, inputs: Seq<E>, times: Seq<u64>) -> Seq<
    (u64, Event<D, E, F>),
> {
    Seq::new(
        2 * inputs.len(),
        |k: int|
            (
                times[k],
                if k % 2 == 0 {
                    Event::Update(Update::Event { id, event: inputs[k / 2] })
                } else {
                    Event::Done
                },
            ),
    )
}

proof fn lemma_writes_prepend<D, E, F>(action: Action<D, E, F>, rest: Seq<Action<D, E, F>>)
    ensures
        writes(seq![action] + rest) == match action {
            Action::Write { id, event } => seq![(id, event)] + writes(rest),
            _ => writes(rest),
        },
{
    assert((seq![action] + rest).drop_first() =~= rest);
}

/// A session that does not end on its first event answers it and goes on
/// with the rest.
proof fn lemma_replay_goes_on<D, E, F>(s: SessionView, events: Seq<(u64, Event<D, E, F>)>)
    requires
        events.len() > 0,
        !(s.step(events[0].1, events[0].0).1 is Stop),
    ensures
        s.replay(events).0 == seq![s.step(events[0].1, events[0].0).1] + s.step(
            events[0].1,
            events[0].0,
        ).0.replay(events.drop_first()).0,
        s.replay(events).1 == s.step(events[0].1, events[0].0).0.replay(events.drop_first()).1,
{
}

/// Once a device exists, every event that the server sends to it is written
/// to it, once and in the order sent, and the session stays alive with the
/// same devices.
pub proof fn law_each_event_is_written_once<D, E, F>(
    s: SessionView,
    id: u64,
    inputs: Seq<E>,
    times: Seq<u64>,
)
    requires
        s.phase == Phase::Ready,
        s.devices.contains(id),
        times.len() == 2 * inputs.len(),
    ensures
        s.replay(events_for::<D, E, F>(id, inputs, times)).1 == Ok::<(), Error<F>>(()),
        writes(s.replay(events_for::<D, E, F>(id, inputs, times)).0) == Seq::new(
            inputs.len(),
            |i: int| (id, inputs[i]),
        ),
        after(s, events_for::<D, E, F>(id, inputs, times)) == s,
    decreases inputs.len(),
{
    let events = events_for::<D, E, F>(id, inputs, times);
    if inputs.len() > 0 {
        let (busy, write) = s.step(events[0].1, events[0].0);
        let (ready, wait) = busy.step(events[1].1, events[1].0);
        let rest = events_for::<D, E, F>(id, inputs.drop_first(), times.skip(2));
        assert(events.drop_first().drop_first() =~= rest);
        law_each_event_is_written_once::<D, E, F>(s, id, inputs.drop_first(), times.skip(2));
        lemma_replay_goes_on(s, events);
        lemma_replay_goes_on(busy, events.drop_first());
        let tail = s.replay(rest).0;
        lemma_writes_prepend(write, seq![wait] + tail);
        lemma_writes_prepend(wait, tail);
        assert(seq![(id, inputs[0])] + Seq::new(
            inputs.drop_first().len(),
            |i: int| (id, inputs.drop_first()[i]),
        ) =~= Seq::new(inputs.len(), |i: int| (id, inputs[i])));
        assert(after(busy, events.drop_first()) == after(ready, rest));
    }
}

/// Building a device brings it to life: once the driver reports that it is
/// built, it exists, and what existed before still does.
pub proof fn law_a_built_device_exists<D, E, F>(
    s: SessionView,
    id: u64,
    descriptor: D,
    now: u64,
    then: u64,
)
    requires
        s.phase == Phase::Ready,
    ensures
        ({
            let (busy, build) = s.step(
                Event::<D, E, F>::Update(Update::CreateDevice { id, descriptor }),
                now,
            );
            let (ready, wait) = busy.step(Event::<D, E, F>::Done, then);
            &&& build == Action::<D, E, F>::Build { id, descriptor }
            &&& busy.devices == s.devices
            &&& ready.phase == Phase::Ready
            &&& ready.devices == s.devices.insert(id)
            &&& wait is Await
        }),
{
}

/// A device that the server creates takes every event that the server then
/// sends to it: each is written to it, once and in the order sent, and
/// nothing is written to any other device.
pub proof fn law_a_created_device_takes_its_events<D, E, F>(
    s: SessionView,
    id: u64,
    descriptor: D,
    created: u64,
    built: u64,
    inputs: Seq<E>,
    times: Seq<u64>,
)
    requires
        s.phase == Phase::Ready,
        times.len() == 2 * inputs.len(),
    ensures
        ({
            let events = seq![
                (created, Event::<D, E, F>::Update(Update::CreateDevice { id, descriptor })),
                (built, Event::<D, E, F>::Done),
            ] + events_for::<D, E, F>(id, inputs, times);
            &&& s.replay(events).1 == Ok::<(), Error<F>>(())
            &&& writes(s.replay(events).0) == Seq::new(inputs.len(), |i: int| (id, inputs[i]))
            &&& after(s, events).devices == s.devices.insert(id)
        }),
{
    let rest = events_for::<D, E, F>(id, inputs, times);
    let events = seq![
        (created, Event::<D, E, F>::Update(Update::CreateDevice { id, descriptor })),
        (built, Event::<D, E, F>::Done),
    ] + rest;
    let (busy, build) = s.step(events[0].1, events[0].0);
    let (ready, wait) = busy.step(events[1].1, events[1].0);
    assert(events.drop_first().drop_first() =~= rest);
    law_each_event_is_written_once::<D, E, F>(ready, id, inputs, times);
    lemma_replay_goes_on(s, events);
    lemma_replay_goes_on(busy, events.drop_first());
    let tail = ready.replay(rest).0;
    lemma_writes_prepend(build, seq![wait] + tail);
    lemma_writes_prepend(wait, tail);
    assert(after(busy, events.drop_first()) == after(ready, rest));
}

/// An event for a device that does not exist is not dropped in silence: it
/// ends the session with a network error that names the invalid data, and
/// nothing is written.
pub proof fn law_an_event_for_no_device_ends_the_session<D, E, F>(
    s: SessionView,
    id: u64,
    event: E,
    now: u64,
)
    requires
        s.phase == Phase::Ready,
        !s.devices.contains(id),
    ensures
        s.step(Event::<D, E, F>::Update(Update::Event { id, event }), now) == (
            s.ended(),
            Action::<D, E, F>::Stop(Error::Network(Failure::InvalidData)),
        ),
{
}

/// A device comes to exist in one way only: the driver reports that the
/// device it was told to build is built.
pub proof fn law_devices_come_from_builds<D, E, F>(
    s: SessionView,
    event: Event<D, E, F>,
    now: u64,
    id: u64,
)
    requires
        !s.devices.contains(id),
        s.step(event, now).0.devices.contains(id),
    ensures
        s.phase == Phase::Busy(Pending::Build(id)),
        event == Event::<D, E, F>::Done,
{
}

/// A device ceases to exist in two ways only: the server destroys it, or
/// the session ends.
pub proof fn law_devices_go_by_destroy_or_end<D, E, F>(
    s: SessionView,
    event: Event<D, E, F>,
    now: u64,
    id: u64,
)
    requires
        s.devices.contains(id),
        !s.step(event, now).0.devices.contains(id),
    ensures
        (s.phase == Phase::Ready && event == Event::<D, E, F>::Update(
            Update::DestroyDevice { id },
        )) || s.step(event, now).1 is Stop,
{
}

/// Destroying a device that does not exist does nothing and never fails:
/// the session stays as it is and the driver goes back to waiting.
pub proof fn law_destroying_no_device_does_nothing<D, E, F>(s: SessionView, id: u64, now: u64)
    requires
        s.phase == Phase::Ready,
        !s.devices.contains(id),
    ensures
        s.step(Event::<D, E, F>::Update(Update::DestroyDevice { id }), now) == (
            s,
            s.wait::<D, E, F>(now),
        ),
{
}

/// Destroying a device never ends the session and touches no other device.
pub proof fn law_destroying_leaves_the_others<D, E, F>(
    s: SessionView,
    id: u64,
    other: u64,
    now: u64,
)
    requires
        s.phase == Phase::Ready,
        other != id,
    ensures
        ({
            let (next, action) = s.step(
                Event::<D, E, F>::Update(Update::DestroyDevice { id }),
                now,
            );
            &&& next.phase == Phase::Ready
            &&& !next.devices.contains(id)
            &&& next.devices.contains(other) == s.devices.contains(other)
            &&& !(action is Stop)
            &&& action is Release <==> s.devices.contains(id)
        }),
{
}

/// A ping puts the deadline a full interval after the instant at which it
/// is handled and is answered by one pong, which tells the time since the
/// previous reset. The devices stay as they are.
pub proof fn law_a_ping_resets_the_deadline<D, E, F>(s: SessionView, now: u64)
    requires
        s.phase == Phase::Ready,
    ensures
        ({
            let (next, action) = s.step(Event::<D, E, F>::Update(Update::Ping), now);
            &&& action == Action::<D, E, F>::Pong { elapsed: s.keepalive.elapsed_at(now) }
            &&& next.phase == Phase::Busy(Pending::Pong)
            &&& next.keepalive.deadline() == now + s.keepalive.interval
            &&& next.keepalive.interval == s.keepalive.interval
            &&& next.devices == s.devices
        }),
{
}

/// While the pong is on its way nothing else is taken in: no update is
/// given effect and no second pong is sent. The driver reads the next
/// update only when it has reported the pong as sent, and a pong that
/// cannot be sent ends the session with a network error.
pub proof fn law_the_pong_goes_out_first<D, E, F>(s: SessionView, event: Event<D, E, F>, now: u64)
    requires
        s.phase == Phase::Busy(Pending::Pong),
    ensures
        !(s.step(event, now).1 is Pong),
        event is Done ==> s.step(event, now) == (s.moved_to(Phase::Ready), s.wait::<D, E, F>(now)),
        event matches Event::Failed(failure) ==> s.step(event, now) == (
            s.ended(),
            Action::<D, E, F>::Stop(Error::Network(Failure::Io(failure))),
        ),
        !(event is Done) && !(event is Failed) ==> s.step(event, now) == (
            s,
            Action::<D, E, F>::Ignored,
        ),
{
}

/// In steady state nothing but a ping moves the deadline.
pub proof fn law_only_a_ping_moves_the_deadline<D, E, F>(
    s: SessionView,
    event: Event<D, E, F>,
    now: u64,
)
    requires
        steady(s),
        s.step(event, now).0.keepalive != s.keepalive,
    ensures
        s.phase == Phase::Ready,
        event == Event::<D, E, F>::Update(Update::Ping),
{
}

/// When the wait ends in silence at or after the deadline, the session ends
/// with a timeout, whatever else was read since the last reset. Before the
/// deadline the session stays as it is and the driver waits on.
pub proof fn law_silence_past_the_deadline_is_a_timeout<D, E, F>(s: SessionView, now: u64)
    requires
        s.phase == Phase::Ready,
    ensures
        now >= s.keepalive.deadline() ==> s.step(Event::<D, E, F>::Silence, now) == (
            s.ended(),
            Action::<D, E, F>::Stop(Error::Network(Failure::TimedOut)),
        ),
        now < s.keepalive.deadline() ==> s.step(Event::<D, E, F>::Silence, now) == (
            s,
            s.wait::<D, E, F>(now),
        ),
        now < s.keepalive.deadline() && now >= s.keepalive.since ==> s.wait::<D, E, F>(now) == (
            Action::<D, E, F>::Await { timeout: (s.keepalive.deadline() - now) as u64 }
        ),
{
}

/// An update that has arrived is given its effect even when the deadline
/// has passed: the deadline ends a session only when there is nothing to
/// read.
pub proof fn law_an_update_goes_before_the_deadline<D, E, F>(
    s: SessionView,
    update: Update<D, E>,
    now: u64,
)
    requires
        s.phase == Phase::Ready,
    ensures
        s.step(Event::<D, E, F>::Update(update), now) == s.on_update::<D, E, F>(update, now),
        !(s.step(Event::<D, E, F>::Update(update), now).1 matches Action::Stop(
            Error::Network(Failure::TimedOut),
        )),
{
}

/// The handshake goes on exactly when the server's version equals this
/// client's. Any other version ends the session with an error that carries
/// both.
pub proof fn law_versions_must_be_equal<D, E, F>(s: SessionView, theirs: Version, now: u64)
    requires
        s.phase == Phase::Negotiating,
    ensures
        theirs == s.version ==> s.step(Event::<D, E, F>::Version(theirs), now) == (
            s.moved_to(Phase::Authenticating),
            Action::<D, E, F>::Authenticate,
        ),
        theirs != s.version ==> s.step(Event::<D, E, F>::Version(theirs), now) == (
            s.ended(),
            Action::<D, E, F>::Stop(Error::Version { server: s.version, client: theirs }),
        ),
{
}

/// Whether two versions are compatible does not depend on which end holds
/// which: a client with `a` accepts a server with `b` exactly when a client
/// with `b` accepts a server with `a`, and that is when `a` equals `b`.
pub proof fn law_version_check_is_symmetric<D, E, F>(
    s: SessionView,
    t: SessionView,
    a: Version,
    b: Version,
    now: u64,
)
    requires
        s.phase == Phase::Negotiating,
        t.phase == Phase::Negotiating,
        s.version == a,
        t.version == b,
    ensures
        s.step(Event::<D, E, F>::Version(b), now).1 is Authenticate <==> a == b,
        t.step(Event::<D, E, F>::Version(a), now).1 is Authenticate <==> a == b,
        s.step(Event::<D, E, F>::Version(b), now).1 is Stop <==> a != b,
        t.step(Event::<D, E, F>::Version(a), now).1 is Stop <==> a != b,
{
}

/// Steady state begins exactly when the server's verdict is that the
/// answer passed, with the deadline a full interval away. Any other verdict
/// ends the session with an authentication error.
pub proof fn law_only_passed_authenticates<D, E, F>(s: SessionView, status: AuthStatus, now: u64)
    requires
        s.phase == Phase::Authenticating,
    ensures
        ({
            let (next, action) = s.step(Event::<D, E, F>::Status(status), now);
            &&& status == AuthStatus::Passed ==> {
                &&& next.phase == Phase::Ready
                &&& next.devices == s.devices
                &&& next.keepalive.deadline() == now + s.keepalive.interval
                &&& action == Action::<D, E, F>::Await { timeout: s.keepalive.interval }
            }
            &&& status != AuthStatus::Passed ==> {
                &&& next == s.ended()
                &&& action == Action::<D, E, F>::Stop(Error::Auth)
            }
        }),
{
}

/// A session that has ended stays ended and asks for nothing more: no
/// event makes it send, build or write anything.
pub proof fn law_the_end_is_final<D, E, F>(s: SessionView, event: Event<D, E, F>, now: u64)
    requires
        s.phase == Phase::Closed,
    ensures
        s.step(event, now) == (s, Action::<D, E, F>::Ignored),
{
}

/// A session ends exactly when it tells the driver to stop, and then every
/// device is let go.
pub proof fn law_stop_ends_the_session<D, E, F>(s: SessionView, event: Event<D, E, F>, now: u64)
    requires
        s.phase != Phase::Closed,
    ensures
        s.step(event, now).1 is Stop <==> s.step(event, now).0.phase == Phase::Closed,
        s.step(event, now).1 is Stop ==> s.step(event, now).0 == s.ended(),
{
}

/// Every step of the handshake must succeed before the next one begins, and
/// no update is given effect before the handshake is through: until then
/// an update is ignored.
pub proof fn law_no_update_before_authentication<D, E, F>(
    s: SessionView,
    update: Update<D, E>,
    now: u64,
)
    requires
        s.phase == Phase::Connecting || s.phase == Phase::Negotiating || s.phase
            == Phase::Authenticating,
    ensures
        s.step(Event::<D, E, F>::Update(update), now) == (s, Action::<D, E, F>::Ignored),
{
}

/// The phases follow one another in one order: connecting, negotiating,
/// authenticating, steady state. A step leaves the phase as it is, moves to
/// the next one, moves within steady state, or ends the session.
pub proof fn law_phases_follow_in_order<D, E, F>(s: SessionView, event: Event<D, E, F>, now: u64)
    ensures
        ({
            let next = s.step(event, now).0;
            ||| next.phase == s.phase
            ||| next.phase == Phase::Closed
            ||| s.phase == Phase::Connecting && next.phase == Phase::Negotiating
            ||| s.phase == Phase::Negotiating && next.phase == Phase::Authenticating
            ||| s.phase == Phase::Authenticating && next.phase == Phase::Ready
            ||| steady(s) && steady(next)
        }),
        s.step(event, now).0.version == s.version,
        s.step(event, now).0.keepalive.interval == s.keepalive.interval,
{
}

/// Whether the session has devices only where it may: in steady state.
pub open spec fn tidy(s: SessionView) -> bool {
    steady(s) || s.devices == Set::<u64>::empty()
}

/// No step brings a device to a session outside steady state.
pub proof fn law_a_step_keeps_a_session_tidy<D, E, F>(
    s: SessionView,
    event: Event<D, E, F>,
    now: u64,
)
    requires
        tidy(s),
    ensures
        tidy(s.step(event, now).0),
{
}

/// Outside steady state no device exists: none before the handshake is
/// through, and none after the end. This holds of a new session and after
/// any events.
pub proof fn law_devices_only_in_steady_state<D, E, F>(
    version: Version,
    interval: u64,
    events: Seq<(u64, Event<D, E, F>)>,
)
    ensures
        tidy(SessionView::initial(version, interval)),
        tidy(after(SessionView::initial(version, interval), events)),
{
    lemma_tidy_after(SessionView::initial(version, interval), events);
}

proof fn lemma_tidy_after<D, E, F>(s: SessionView, events: Seq<(u64, Event<D, E, F>)>)
    requires
        tidy(s),
    ensures
        tidy(after(s, events)),
    decreases events.len(),
{
    if events.len() > 0 {
        lemma_tidy_after(s.step(events[0].1, events[0].0).0, events.drop_first());
    }
}

proof fn lemma_closed_after<D, E, F>(s: SessionView, events: Seq<(u64, Event<D, E, F>)>)
    requires
        s.phase == Phase::Closed,
    ensures
        after(s, events) == s,
    decreases events.len(),
{
    if events.len() > 0 {
        lemma_closed_after(s, events.drop_first());
    }
}

/// However a session ends, it ends closed and with every device let go,
/// and it ends with an error: there is no other way out.
pub proof fn law_every_end_releases_the_devices<D, E, F>(
    s: SessionView,
    events: Seq<(u64, Event<D, E, F>)>,
)
    requires
        s.replay(events).1 is Err,
    ensures
        after(s, events).phase == Phase::Closed,
        after(s, events).devices == Set::<u64>::empty(),
    decreases events.len(),
{
    if events.len() > 0 {
        let (next, action) = s.step(events[0].1, events[0].0);
        if action is Stop {
            lemma_closed_after(next, events.drop_first());
        } else {
            law_every_end_releases_the_devices(next, events.drop_first());
        }
    }
}

/// A session that ends stops at once: it hands out no action after the one
/// that ended it, whatever else is reported. The driver has sent nothing
/// after the failure.
pub proof fn law_nothing_follows_the_end<D, E, F>(
    s: SessionView,
    before: Seq<(u64, Event<D, E, F>)>,
    later: Seq<(u64, Event<D, E, F>)>,
)
    requires
        s.replay(before).1 is Err,
    ensures
        s.replay(before + later) == s.replay(before),
    decreases before.len(),
{
    if before.len() > 0 {
        let (next, action) = s.step(before[0].1, before[0].0);
        assert((before + later).drop_first() =~= before.drop_first() + later);
        if !(action is Stop) {
            law_nothing_follows_the_end(next, before.drop_first(), later);
        }
    }
}

} // verus!

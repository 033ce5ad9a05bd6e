//! The active state and the local service that publishes it.
//!
//! The active state says whether this client is the one that currently owns
//! the input. The session writes it on the server's command. The broadcast
//! service keeps the local observers that have connected and, on every tick,
//! sends each of them one line with the state as it is then. An observer that
//! a line does not reach is dropped for good.

use vstd::prelude::*;

verus! {

/// The time between two ticks of the broadcast service, in milliseconds.
pub const TICK_MILLIS: u64 = 100;

/// Whether this client currently owns the input.
#[derive(Debug, PartialEq, Eq)]
pub struct SocketState {
    active: bool,
}

impl View for SocketState {
    type V = bool;

    closed spec fn view(&self) -> bool {
        self.active
    }
}

impl SocketState {
    /// A state with the given value.
    pub fn new(active: bool) -> (state: SocketState)
        ensures
            state@ == active,
    {
        SocketState { active }
    }

    /// The state as it is now.
    pub fn get(&self) -> (active: bool)
        ensures
            active == self@,
    {
        self.active
    }

    /// Overwrites the state.
    pub fn set(&mut self, active: bool)
        ensures
            final(self)@ == active,
    {
        self.active = active;
    }
}

/// The broadcast service as it starts: the state is active and no observer
/// has connected.
pub fn init<C>() -> (service: (SocketState, Observers<C>))
    ensures
        service.0@ == true,
        service.1@ == Seq::<C>::empty(),
{
    (SocketState::new(true), Observers::new())
}

/// Marks this client as the one that owns the input.
pub fn set_active(state: &mut SocketState)
    ensures
        final(state)@ == true,
{
    state.set(true);
}

/// Marks this client as one that does not own the input.
pub fn set_inactive(state: &mut SocketState)
    ensures
        final(state)@ == false,
{
    state.set(false);
}

/// The line that tells an observer the state.
pub open spec fn message_text(active: bool) -> Seq<char> {
    if active {
        "active_rkvm=true\n"@
    } else {
        "active_rkvm=false\n"@
    }
}

/// The line that tells an observer the state: `active_rkvm=true` or
/// `active_rkvm=false`, ended by a newline.
pub fn message(active: bool) -> (line: String)
    ensures
        line@ == message_text(active),
{
    if active {
        "active_rkvm=true\n".to_owned()
    } else {
        "active_rkvm=false\n".to_owned()
    }
}

/// Whether the line went through to the observer at position `i` of a round.
/// An observer without a report counts as not reached.
pub open spec fn reached(delivered: Seq<bool>, i: int) -> bool {
    0 <= i < delivered.len() && delivered[i]
}

/// The observers of `round` that the line went through to, in the order in
/// which they stand in `round`.
pub open spec fn survivors<C>(round: Seq<C>, delivered: Seq<bool>) -> Seq<C>
    decreases round.len(),
{
    if round.len() == 0 {
        Seq::empty()
    } else if reached(delivered, round.len() - 1) {
        survivors(round.drop_last(), delivered).push(round.last())
    } else {
        survivors(round.drop_last(), delivered)
    }
}

/// An observer is kept exactly when it stood in the round at a position
/// that the line went through to.
pub proof fn law_the_kept_are_the_reached<C>(round: Seq<C>, delivered: Seq<bool>, observer: C)
    ensures
        survivors(round, delivered).contains(observer) <==> exists|i: int|
            0 <= i < round.len() && reached(delivered, i) && round[i] == observer,
    decreases round.len(),
{
    let kept = survivors(round, delivered);
    if round.len() > 0 {
        let front = round.drop_last();
        let last = round.len() - 1;
        law_the_kept_are_the_reached(front, delivered, observer);
        if exists|i: int| 0 <= i < round.len() && reached(delivered, i) && round[i] == observer {
            let i = choose|i: int|
                0 <= i < round.len() && reached(delivered, i) && round[i] == observer;
            if i == last {
                assert(kept[kept.len() - 1] == observer);
            } else {
                let k = choose|k: int|
                    0 <= k < survivors(front, delivered).len() && survivors(front, delivered)[k]
                        == observer;
                assert(kept[k] == observer);
            }
        }
    }
}

/// An observer that the line did not go through to is gone after the round,
/// where no observer stands in the round twice.
pub proof fn law_the_unreached_are_dropped<C>(round: Seq<C>, delivered: Seq<bool>, i: int)
    requires
        0 <= i < round.len(),
        !reached(delivered, i),
        round.no_duplicates(),
    ensures
        !survivors(round, delivered).contains(round[i]),
{
    law_the_kept_are_the_reached(round, delivered, round[i]);
}

/// A round keeps the observers in their order: what it keeps of a round
/// made of two parts is what it keeps of the first part, followed by what
/// it keeps of the second.
pub proof fn law_the_kept_stay_in_order<C>(first: Seq<C>, second: Seq<C>, delivered: Seq<bool>)
    requires
        first.len() <= delivered.len(),
    ensures
        survivors(first + second, delivered) == survivors(first, delivered) + survivors(
            second,
            delivered.skip(first.len() as int),
        ),
    decreases second.len(),
{
    let shifted = delivered.skip(first.len() as int);
    if second.len() == 0 {
        assert(survivors(first, delivered) + survivors(second, shifted) =~= survivors(
            first,
            delivered,
        ));
    } else {
        let whole = first + second;
        assert(whole.drop_last() =~= first + second.drop_last());
        law_the_kept_stay_in_order(first, second.drop_last(), delivered);
        assert(survivors(whole, delivered) =~= survivors(first, delivered) + survivors(
            second,
            shifted,
        ));
    }
}

/// A round drops nobody that the line went through to, and keeps nobody
/// else: where it went through to all, all are kept, and where it went
/// through to none, none is.
pub proof fn law_all_or_none<C>(round: Seq<C>, delivered: Seq<bool>)
    ensures
        survivors(round, delivered).len() <= round.len(),
        (forall|i: int| 0 <= i < round.len() ==> reached(delivered, i)) ==> survivors(
            round,
            delivered,
        ) == round,
        (forall|i: int| 0 <= i < round.len() ==> !reached(delivered, i)) ==> survivors(
            round,
            delivered,
        ) == Seq::<C>::empty(),
    decreases round.len(),
{
    if round.len() > 0 {
        law_all_or_none(round.drop_last(), delivered);
        assert(round.drop_last().push(round.last()) =~= round);
    }
}

/// What one tick sends, and to whom.
#[derive(Debug, PartialEq, Eq)]
pub struct Round<C> {
    /// The line for every observer of this round.
    pub line: String,
    /// The observers, oldest first.
    pub observers: Vec<C>,
}

/// The observers that the broadcast service keeps, oldest first. `C` is the
/// driver's connection to one observer.
#[derive(Debug, PartialEq, Eq)]
pub struct Observers<C> {
    connections: Vec<C>,
}

impl<C> View for Observers<C> {
    type V = Seq<C>;

    closed spec fn view(&self) -> Seq<C> {
        self.connections@
    }
}

impl<C> Observers<C> {
    /// No observers.
    pub fn new() -> (observers: Observers<C>)
        ensures
            observers@ == Seq::<C>::empty(),
    {
        Observers { connections: Vec::new() }
    }

    /// The number of observers.
    pub fn len(&self) -> (count: usize)
        ensures
            count == self@.len(),
    {
        self.connections.len()
    }

    /// Takes in an observer that has connected. It stands behind those that
    /// came before it.
    pub fn accept(&mut self, connection: C)
        ensures
            final(self)@ == old(self)@.push(connection),
    {
        self.connections.push(connection);
    }

    /// Begins a round: reads the state once and hands out its line together
    /// with every observer there is. The driver writes the line to each of
    /// them and brings them back with [`Observers::settle`].
    pub fn tick(&mut self, state: &SocketState) -> (round: Round<C>)
        ensures
            round.line@ == message_text(state@),
            round.observers@ == old(self)@,
            final(self)@ == Seq::<C>::empty(),
    {
        let mut observers: Vec<C> = Vec::new();
        observers.append(&mut self.connections);
        Round { line: message(state.get()), observers }
    }

    /// Ends a round. `delivered` says for each observer of `round`, by
    /// position, whether the line went through to it. Those it went through
    /// to are kept, in their order and ahead of any that were accepted since
    /// the round began. The others are dropped.
    pub fn settle(&mut self, round: Vec<C>, delivered: &Vec<bool>)
        ensures
            final(self)@ == survivors(round@, delivered@) + old(self)@,
    {
        let mut kept: Vec<C> = Vec::new();
        let mut i: usize = 0;
        let ghost all: Seq<C> = round@;
        proof {
            assert(all.len() == round.len());
        }
        for connection in it: round.into_iter()
            invariant
                it.seq() == all,
                all.len() <= usize::MAX,
                i == it.index(),
                kept@ == survivors(all.take(i as int), delivered@),
        {
            proof {
                assert(all.take(i + 1).drop_last() =~= all.take(i as int));
            }
            if i < delivered.len() && delivered[i] {
                kept.push(connection);
            }
            i = i + 1;
        }
        proof {
            assert(all.take(all.len() as int) =~= all);
        }
        kept.append(&mut self.connections);
        self.connections = kept;
    }
}

} // verus!

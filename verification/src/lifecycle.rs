//! Lifecycle of a routable endpoint: the state machine that a service or a
//! network adapter runs, and the admission class of each of its states.

use vstd::prelude::*;

verus! {

/// What the state of an endpoint means for an envelope addressed to it.
#[derive(Debug, Clone, Copy, PartialEq, Eq, Structural)]
pub enum Admission {
    /// The endpoint accepts new envelopes.
    Admissible,
    /// The endpoint does not accept envelopes now, but may do so later.
    TemporarilyInadmissible,
    /// The endpoint will not accept envelopes.
    TerminallyInadmissible,
}

/// A request of the lifecycle controller of an endpoint.
#[derive(Debug, Clone, Copy, PartialEq, Eq, Structural)]
pub enum Command {
    Start,
    Restart,
    Pause,
    Unpause,
    Stop,
    GracefulStop,
}

/// The states of one kind of endpoint, with the table of its legal
/// transitions.
pub trait Status: Sized + Copy {
    /// Whether an endpoint in state `self` may move to `next` in one step.
    spec fn permits(self, next: Self) -> bool;

    /// How a router treats an endpoint in state `self`.
    spec fn admission_class(self) -> Admission;

    /// The state that `command` asks the endpoint to enter.
    spec fn entered_by(command: Command) -> Self;

    /// The state of an endpoint that nobody has registered yet.
    spec fn unregistered() -> Self;

    /// Whether an endpoint in state `self` may move to `next` in one step.
    fn can_transition_to(self, next: Self) -> (b: bool)
        ensures
            b == self.permits(next),
    ;

    /// How a router treats an endpoint in state `self`.
    fn admission(self) -> (a: Admission)
        ensures
            a == self.admission_class(),
    ;

    /// The state that `command` asks the endpoint to enter.
    fn target_of(command: Command) -> (s: Self)
        ensures
            s == Self::entered_by(command),
    ;

    /// The state of an endpoint that nobody has registered yet.
    fn initial() -> (s: Self)
        ensures
            s == Self::unregistered(),
    ;
}

/// A transition that the table of legal transitions does not hold.
#[derive(Debug, PartialEq, Eq)]
pub struct IllegalTransition<S> {
    pub from: S,
    pub to: S,
}

/// The commands of a lifecycle controller. An endpoint obeys a command only
/// where its state machine permits the step.
pub trait LifeCycle {
    fn start(&mut self);

    fn restart(&mut self);

    fn pause(&mut self);

    fn unpause(&mut self);

    fn stop(&mut self);

    fn graceful_stop(&mut self);
}

/// The current state of one endpoint. Only legal transitions change it.
#[derive(Debug)]
pub struct StatusMachine<S: Status> {
    status: S,
}

/// Whether each state of `path` but the last permits the one after it: the
/// states that an endpoint can pass through, in order.
pub open spec fn legal_path<S: Status>(path: Seq<S>) -> bool {
    forall|i: int| 0 <= i < path.len() - 1 ==> (#[trigger] path[i]).permits(path[i + 1])
}

/// The state of a machine that was in `from` and was asked to enter `to`.
pub open spec fn step<S: Status>(from: S, to: S) -> S {
    if from.permits(to) {
        to
    } else {
        from
    }
}

/// The states that a machine passes through when it starts in `start` and is
/// asked to enter each state of `requests` in turn: `start`, and then the
/// state of each request that was granted.
pub open spec fn visited<S: Status>(start: S, requests: Seq<S>) -> Seq<S>
    decreases requests.len(),
{
    if requests.len() == 0 {
        seq![start]
    } else {
        let before = visited(start, requests.drop_last());
        if before.last().permits(requests.last()) {
            before.push(requests.last())
        } else {
            before
        }
    }
}

/// Whatever a machine is asked to do, the states it passes through form a
/// legal path from the state it started in, and the last of them is the
/// state that the requests leave it in, one [`step`] after the other.
pub proof fn lemma_visited_is_legal_path<S: Status>(start: S, requests: Seq<S>)
    ensures
        visited(start, requests).len() > 0,
        visited(start, requests)[0] == start,
        legal_path(visited(start, requests)),
        requests.len() > 0 ==> visited(start, requests).last() == step(
            visited(start, requests.drop_last()).last(),
            requests.last(),
        ),
    decreases requests.len(),
{
    if requests.len() > 0 {
        lemma_visited_is_legal_path(start, requests.drop_last());
        let before = visited(start, requests.drop_last());
        let after = visited(start, requests);
        assert forall|i: int| 0 <= i < after.len() - 1 implies (#[trigger] after[i]).permits(
            after[i + 1],
        ) by {
            if i < before.len() - 1 {
                assert(before[i].permits(before[i + 1]));
            }
        }
    }
}

impl<S: Status> StatusMachine<S> {
    /// The state the machine is in.
    pub closed spec fn current(&self) -> S {
        self.status
    }

    /// A machine for an endpoint that is not registered yet.
    pub fn new() -> (m: Self)
        ensures
            m.current() == S::unregistered(),
    {
        StatusMachine { status: S::initial() }
    }

    /// The state the machine is in.
    pub fn status(&self) -> (s: S)
        ensures
            s == self.current(),
    {
        self.status
    }

    /// Moves to `next` if the step is legal, and refuses it otherwise, leaving
    /// the state as it was.
    pub fn transition(&mut self, next: S) -> (r: Result<(), IllegalTransition<S>>)
        ensures
            final(self).current() == step(old(self).current(), next),
            r == if old(self).current().permits(next) {
                Ok::<(), IllegalTransition<S>>(())
            } else {
                Err::<(), IllegalTransition<S>>(
                    IllegalTransition { from: old(self).current(), to: next },
                )
            },
    {
        let from = self.status;
        if from.can_transition_to(next) {
            self.status = next;
            Ok(())
        } else {
            Err(IllegalTransition { from, to: next })
        }
    }

    /// Obeys `command` if the step it asks for is legal.
    pub fn obey(&mut self, command: Command)
        ensures
            final(self).current() == step(old(self).current(), S::entered_by(command)),
    {
        let next = S::target_of(command);
        if self.status.can_transition_to(next) {
            self.status = next;
        }
    }

    /// How a router treats the endpoint now.
    pub fn admission(&self) -> (a: Admission)
        ensures
            a == self.current().admission_class(),
    {
        self.status.admission()
    }

    /// Whether the endpoint accepts new envelopes now.
    pub fn accepts_envelopes(&self) -> (b: bool)
        ensures
            b == (self.current().admission_class() == Admission::Admissible),
    {
        match self.status.admission() {
            Admission::Admissible => true,
            _ => false,
        }
    }
}

impl<S: Status> LifeCycle for StatusMachine<S> {
    fn start(&mut self)
        ensures
            final(self).current() == step(old(self).current(), S::entered_by(Command::Start)),
    {
        self.obey(Command::Start)
    }

    fn restart(&mut self)
        ensures
            final(self).current() == step(old(self).current(), S::entered_by(Command::Restart)),
    {
        self.obey(Command::Restart)
    }

    fn pause(&mut self)
        ensures
            final(self).current() == step(old(self).current(), S::entered_by(Command::Pause)),
    {
        self.obey(Command::Pause)
    }

    fn unpause(&mut self)
        ensures
            final(self).current() == step(old(self).current(), S::entered_by(Command::Unpause)),
    {
        self.obey(Command::Unpause)
    }

    fn stop(&mut self)
        ensures
            final(self).current() == step(old(self).current(), S::entered_by(Command::Stop)),
    {
        self.obey(Command::Stop)
    }

    fn graceful_stop(&mut self)
        ensures
            final(self).current() == step(
                old(self).current(),
                S::entered_by(Command::GracefulStop),
            ),
    {
        self.obey(Command::GracefulStop)
    }
}

} // verus!

use vstd::prelude::*;
use std::sync::mpsc::{Receiver, Sender};
use crate::channel::{ChannelPoll, clone_sender, new_channel, recv_msg, send_msg, try_recv_msg};

verus! {

/// The state a worker is asked to assume at its next checkpoint.
#[derive(Clone, Copy, Debug, PartialEq, Eq, Structural)]
pub enum Command {
    Proceed,
    Paused,
    Exiting,
}

/// How a worker's checkpoint state answers one incoming command: every
/// command is accepted as the new state, except that `Exiting` is final
/// and absorbs whatever follows it.
pub open spec fn apply(s: Command, c: Command) -> Command {
    if s is Exiting {
        Command::Exiting
    } else {
        c
    }
}

/// The state a checkpoint settles on after a run of commands, starting
/// from `Proceed`.
pub open spec fn settle(cmds: Seq<Command>) -> Command
    decreases cmds.len(),
{
    if cmds.len() == 0 {
        Command::Proceed
    } else {
        apply(settle(cmds.drop_last()), cmds.last())
    }
}

/// Pause idempotence, one step: asking a worker to pause when it has
/// already been asked changes nothing.
pub proof fn lemma_pause_idempotent(s: Command)
    ensures
        apply(apply(s, Command::Paused), Command::Paused) == apply(s, Command::Paused),
{
}

/// Every command run settles the same whether a pause is asked once or
/// twice in a row at its end.
pub proof fn lemma_settle_pause_twice(cmds: Seq<Command>)
    ensures
        settle(cmds.push(Command::Paused).push(Command::Paused)) == settle(
            cmds.push(Command::Paused),
        ),
{
    let once = cmds.push(Command::Paused);
    let twice = once.push(Command::Paused);
    assert(twice.drop_last() =~= once);
    assert(once.drop_last() =~= cmds);
}

/// The controlling side of one worker's command line.  Dropping every
/// link closes the line, which the worker reads as `Exiting`: a
/// discarded handle cannot leak a running worker.
pub struct ControlLink {
    tx: Sender<Command>,
}

/// The worker's side of its command line: the line and the state last
/// settled on.  `Exiting`, once reached, is never left.
pub struct ControlPoint {
    rx: Receiver<Command>,
    state: Command,
}

/// A fresh command line: the worker starts out proceeding.
pub fn control_line() -> (r: (ControlLink, ControlPoint))
    ensures
        r.1.current() is Proceed,
{
    let (tx, rx) = new_channel();
    (ControlLink { tx }, ControlPoint { rx, state: Command::Proceed })
}

impl ControlLink {
    /// Asks the worker to hold at its next checkpoint.  Never blocks; a
    /// worker already gone ignores it.
    pub fn pause(&self) {
        send_msg(&self.tx, Command::Paused);
    }

    /// Asks the worker to go on.  Never blocks; wakes a worker blocked in
    /// `wait_next`.
    pub fn resume(&self) {
        send_msg(&self.tx, Command::Proceed);
    }

    /// Asks the worker to stop for good.  Never blocks; wakes a worker
    /// blocked in `wait_next`; no later command undoes it.
    pub fn terminate(&self) {
        send_msg(&self.tx, Command::Exiting);
    }
}

impl Clone for ControlLink {
    /// Another handle on the same command line.
    fn clone(&self) -> ControlLink {
        ControlLink { tx: clone_sender(&self.tx) }
    }
}

impl ControlPoint {
    /// The state last settled on.
    pub closed spec fn current(&self) -> Command {
        self.state
    }

    /// Reads the settled state without touching the line.
    pub fn state(&self) -> (c: Command)
        ensures
            c == self.current(),
    {
        self.state
    }

    /// One non-blocking checkpoint step: absorbs at most one pending
    /// command.  A closed line is read as `Exiting`, and `Exiting` is
    /// final.
    pub fn poll(&mut self) -> (c: Command)
        ensures
            c == final(self).current(),
            old(self).current() is Exiting ==> c is Exiting,
    {
        match try_recv_msg(&self.rx) {
            ChannelPoll::Message(m) => {
                self.state = absorb(self.state, m);
            },
            ChannelPoll::Idle => {},
            ChannelPoll::Closed => {
                self.state = absorb(self.state, Command::Exiting);
            },
        }
        self.state
    }

    /// One blocking checkpoint step: waits for the next command and
    /// absorbs it.  A closed line is read as `Exiting`, and `Exiting` is
    /// final.
    pub fn wait_next(&mut self) -> (c: Command)
        ensures
            c == final(self).current(),
            old(self).current() is Exiting ==> c is Exiting,
    {
        match recv_msg(&self.rx) {
            Some(m) => {
                self.state = absorb(self.state, m);
            },
            None => {
                self.state = absorb(self.state, Command::Exiting);
            },
        }
        self.state
    }
}

/// The executable twin of `apply`.
fn absorb(s: Command, c: Command) -> (r: Command)
    ensures
        r == apply(s, c),
{
    match s {
        Command::Exiting => Command::Exiting,
        _ => c,
    }
}

} // verus!

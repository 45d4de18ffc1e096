//! The listener on the compositor's notification socket: where the socket
//! lives, and what the listener decides on each thing that the connection
//! tells it. Opening the connection and reading from it is left to the
//! caller, who reports each outcome as a [`Signal`] and carries out the
//! [`Action`] that comes back.

use crate::error::{EventInterpretError, Failure};
use crate::events::{Event, EventModel};
use crate::interpreter::{interpret_line, Interpreter};
use vstd::prelude::*;
use vstd::string::StringExecFns;

verus! {

/// One running compositor session, known by its instance identifier.
#[derive(Clone, Debug, PartialEq)]
pub struct Hyprland {
    /// The identifier that the compositor gave to this session.
    pub instance_id: String,
}

impl Hyprland {
    /// The session with the identifier `instance_id`.
    pub fn new(instance_id: String) -> (hyprland: Self)
        ensures
            hyprland.instance_id == instance_id,
    {
        Hyprland { instance_id }
    }
}

/// The two sockets that a session offers.
#[derive(Clone, Copy, Debug, PartialEq, Eq, Structural)]
pub enum Socket {
    /// The one-way socket on which notifications arrive.
    Listener,
    /// The socket that takes commands.
    Dispatcher,
}

/// The path of the socket `socket` of the session `instance_id`.
pub open spec fn socket_path(instance_id: Seq<char>, socket: Socket) -> Seq<char> {
    "/tmp/hypr/"@ + instance_id + match socket {
        Socket::Listener => "/.socket2.sock"@,
        Socket::Dispatcher => "/.socket.sock"@,
    }
}

/// The sender of commands to a session.
pub struct Dispatcher {
    /// The session that the commands go to.
    pub hyprland: Hyprland,
}

/// The receiver of a session's notifications.
pub struct Listener {
    /// The session that is listened to.
    pub hyprland: Hyprland,
}

/// Where a listener stands in the life of its connection.
#[derive(Clone, Copy, Debug, PartialEq, Eq, Structural)]
pub enum Phase {
    /// The connection is not open yet.
    Connecting,
    /// The connection is open and lines are read from it, one at a time.
    Streaming,
    /// The listener is done. Nothing is read any more.
    Closed,
}

/// What the connection tells the listener.
#[derive(Debug, Clone, PartialEq)]
pub enum Signal {
    /// The connection was opened.
    Connected,
    /// The connection could not be opened.
    ConnectFailed,
    /// A line was read; it comes without its line terminator.
    Line(String),
    /// The peer closed the connection.
    EndOfStream,
    /// Reading failed below the level of lines.
    ReadFailed,
    /// The owner of the listener asked it to stop.
    Cancelled,
}

/// What the listener asks its caller to do next.
#[derive(Debug, Clone, PartialEq)]
pub enum Action {
    /// Open the connection.
    Connect,
    /// Read the next line.
    Read,
    /// Hand the event to the consumer, then read the next line.
    Emit(Event),
    /// Report the failure to the consumer, then read the next line.
    Report(EventInterpretError),
    /// Stop: the stream ended or the listener was cancelled.
    Finish,
    /// Stop and surface a connection error to the caller.
    Fail,
}

/// The mathematical content of a [`Signal`].
pub enum SignalModel {
    Connected,
    ConnectFailed,
    Line(Seq<char>),
    EndOfStream,
    ReadFailed,
    Cancelled,
}

/// The mathematical content of an [`Action`].
pub enum ActionModel {
    Connect,
    Read,
    Emit(EventModel),
    Report(Failure),
    Finish,
    Fail,
}

impl View for Signal {
    type V = SignalModel;

    open spec fn view(&self) -> SignalModel {
        match self {
            Signal::Connected => SignalModel::Connected,
            Signal::ConnectFailed => SignalModel::ConnectFailed,
            Signal::Line(line) => SignalModel::Line(line@),
            Signal::EndOfStream => SignalModel::EndOfStream,
            Signal::ReadFailed => SignalModel::ReadFailed,
            Signal::Cancelled => SignalModel::Cancelled,
        }
    }
}

impl View for Action {
    type V = ActionModel;

    open spec fn view(&self) -> ActionModel {
        match self {
            Action::Connect => ActionModel::Connect,
            Action::Read => ActionModel::Read,
            Action::Emit(event) => ActionModel::Emit(event@),
            Action::Report(error) => ActionModel::Report(error@),
            Action::Finish => ActionModel::Finish,
            Action::Fail => ActionModel::Fail,
        }
    }
}

/// What the consumer is owed for the line `line`: its event where the line
/// decodes, its failure where it does not.
pub open spec fn delivery(line: Seq<char>) -> ActionModel {
    match interpret_line(line) {
        Ok(event) => ActionModel::Emit(event),
        Err(failure) => ActionModel::Report(failure),
    }
}

/// The listener's rule: the phase it moves to and the action it asks for,
/// given the phase it is in and what the connection told it.
///
/// A closed listener stays closed. While connecting, only the outcome of
/// the connection attempt or a cancellation moves it. While streaming, a
/// line never closes it, whether the line decodes or not; the end of the
/// stream, a read failure and a cancellation do.
pub open spec fn react(phase: Phase, signal: SignalModel) -> (Phase, ActionModel) {
    match phase {
        Phase::Closed => (Phase::Closed, ActionModel::Finish),
        Phase::Connecting => match signal {
            SignalModel::Connected => (Phase::Streaming, ActionModel::Read),
            SignalModel::ConnectFailed => (Phase::Closed, ActionModel::Fail),
            SignalModel::Cancelled => (Phase::Closed, ActionModel::Finish),
            _ => (Phase::Connecting, ActionModel::Connect),
        },
        Phase::Streaming => match signal {
            SignalModel::Line(line) => (Phase::Streaming, delivery(line)),
            SignalModel::EndOfStream => (Phase::Closed, ActionModel::Finish),
            SignalModel::ReadFailed => (Phase::Closed, ActionModel::Fail),
            SignalModel::Cancelled => (Phase::Closed, ActionModel::Finish),
            _ => (Phase::Streaming, ActionModel::Read),
        },
    }
}

/// The phase that a listener reaches from `phase` after `signals`, and the
/// actions that it asked for on the way, one per signal and in their order.
pub open spec fn run(phase: Phase, signals: Seq<SignalModel>) -> (Phase, Seq<ActionModel>)
    decreases signals.len(),
{
    if signals.len() == 0 {
        (phase, Seq::empty())
    } else {
        let (reached, asked) = run(phase, signals.drop_last());
        let (next, action) = react(reached, signals.last());
        (next, asked.push(action))
    }
}

/// The events among `actions`, in order.
pub open spec fn emitted(actions: Seq<ActionModel>) -> Seq<EventModel>
    decreases actions.len(),
{
    if actions.len() == 0 {
        Seq::empty()
    } else {
        let before = emitted(actions.drop_last());
        match actions.last() {
            ActionModel::Emit(event) => before.push(event),
            _ => before,
        }
    }
}

/// The failures among `actions`, in order.
pub open spec fn reported(actions: Seq<ActionModel>) -> Seq<Failure>
    decreases actions.len(),
{
    if actions.len() == 0 {
        Seq::empty()
    } else {
        let before = reported(actions.drop_last());
        match actions.last() {
            ActionModel::Report(failure) => before.push(failure),
            _ => before,
        }
    }
}

/// The events of those of `lines` that decode, in the order of the lines.
pub open spec fn accepted(lines: Seq<Seq<char>>) -> Seq<EventModel>
    decreases lines.len(),
{
    if lines.len() == 0 {
        Seq::empty()
    } else {
        let before = accepted(lines.drop_last());
        match interpret_line(lines.last()) {
            Ok(event) => before.push(event),
            Err(_) => before,
        }
    }
}

/// The failures of those of `lines` that do not decode, in the order of the lines.
pub open spec fn rejected(lines: Seq<Seq<char>>) -> Seq<Failure>
    decreases lines.len(),
{
    if lines.len() == 0 {
        Seq::empty()
    } else {
        let before = rejected(lines.drop_last());
        match interpret_line(lines.last()) {
            Ok(_) => before,
            Err(failure) => before.push(failure),
        }
    }
}

/// The signals of reading `lines` one after the other.
pub open spec fn line_signals(lines: Seq<Seq<char>>) -> Seq<SignalModel> {
    Seq::new(lines.len(), |i: int| SignalModel::Line(lines[i]))
}

/// The contents of a sequence of signals.
pub open spec fn signal_models(signals: Seq<Signal>) -> Seq<SignalModel> {
    Seq::new(signals.len(), |i: int| signals[i]@)
}

/// The contents of a sequence of actions.
pub open spec fn action_models(actions: Seq<Action>) -> Seq<ActionModel> {
    Seq::new(actions.len(), |i: int| actions[i]@)
}

/// A streaming listener that is fed lines, good and bad in any mixture,
/// stays streaming. It answers every line, each in its turn: the lines that
/// decode with their events, the others with their failures. So the events
/// emitted are exactly those of the good lines, in the order of the lines,
/// the failures reported are exactly those of the bad lines, and the two
/// together are as many as the lines.
pub proof fn lemma_bad_lines_never_close(lines: Seq<Seq<char>>)
    ensures
        run(Phase::Streaming, line_signals(lines)).0 == Phase::Streaming,
        run(Phase::Streaming, line_signals(lines)).1.len() == lines.len(),
        forall|i: int|
            0 <= i < lines.len() ==> #[trigger] run(Phase::Streaming, line_signals(lines)).1[i]
                == delivery(lines[i]),
        emitted(run(Phase::Streaming, line_signals(lines)).1) == accepted(lines),
        reported(run(Phase::Streaming, line_signals(lines)).1) == rejected(lines),
        accepted(lines).len() + rejected(lines).len() == lines.len(),
    decreases lines.len(),
{
    if lines.len() > 0 {
        let shorter = lines.drop_last();
        lemma_bad_lines_never_close(shorter);
        assert(line_signals(lines).drop_last() =~= line_signals(shorter));
        assert(line_signals(lines).last() == SignalModel::Line(lines.last()));
        let asked = run(Phase::Streaming, line_signals(shorter)).1;
        let all = run(Phase::Streaming, line_signals(lines)).1;
        assert(all == asked.push(delivery(lines.last())));
        assert(all.drop_last() =~= asked);
    }
}

/// The connection stays open throughout: after any number of the lines,
/// good or bad, the listener is still streaming.
pub proof fn lemma_streaming_throughout(lines: Seq<Seq<char>>, read: int)
    requires
        0 <= read <= lines.len(),
    ensures
        run(Phase::Streaming, line_signals(lines.take(read))).0 == Phase::Streaming,
        line_signals(lines.take(read)) == line_signals(lines).take(read),
{
    lemma_bad_lines_never_close(lines.take(read));
    assert(line_signals(lines.take(read)) =~= line_signals(lines).take(read));
}

/// A closed listener reads nothing more: whatever it is told, it stays
/// closed and asks only to finish.
pub proof fn lemma_closed_is_final(signals: Seq<SignalModel>)
    ensures
        run(Phase::Closed, signals).0 == Phase::Closed,
        forall|i: int|
            0 <= i < signals.len() ==> #[trigger] run(Phase::Closed, signals).1[i]
                == ActionModel::Finish,
        run(Phase::Closed, signals).1.len() == signals.len(),
    decreases signals.len(),
{
    if signals.len() > 0 {
        lemma_closed_is_final(signals.drop_last());
    }
}

impl Listener {
    /// A listener on the session `hyprland`.
    pub fn new(hyprland: Hyprland) -> (listener: Self)
        ensures
            listener.hyprland == hyprland,
    {
        Listener { hyprland }
    }

    /// The path of one of the session's sockets.
    pub fn get_socket_path(&self, socket_type: Socket) -> (path: String)
        ensures
            path@ == socket_path(self.hyprland.instance_id@, socket_type),
    {
        let base = String::from_str("/tmp/hypr/").concat(self.hyprland.instance_id.as_str());
        match socket_type {
            Socket::Listener => base.concat("/.socket2.sock"),
            Socket::Dispatcher => base.concat("/.socket.sock"),
        }
    }

    /// Decides what follows from one signal: the next phase, and the action
    /// that the caller is to carry out before it reports the next signal.
    pub fn step(phase: Phase, signal: &Signal) -> (next: (Phase, Action))
        ensures
            (next.0, next.1@) == react(phase, signal@),
    {
        match phase {
            Phase::Closed => (Phase::Closed, Action::Finish),
            Phase::Connecting => match signal {
                Signal::Connected => (Phase::Streaming, Action::Read),
                Signal::ConnectFailed => (Phase::Closed, Action::Fail),
                Signal::Cancelled => (Phase::Closed, Action::Finish),
                _ => (Phase::Connecting, Action::Connect),
            },
            Phase::Streaming => match signal {
                Signal::Line(line) => match Interpreter::new(line.as_str()).interpret() {
                    Ok(event) => (Phase::Streaming, Action::Emit(event)),
                    Err(error) => (Phase::Streaming, Action::Report(error)),
                },
                Signal::EndOfStream => (Phase::Closed, Action::Finish),
                Signal::ReadFailed => (Phase::Closed, Action::Fail),
                Signal::Cancelled => (Phase::Closed, Action::Finish),
                _ => (Phase::Streaming, Action::Read),
            },
        }
    }

    /// Feeds a whole sequence of signals to a listener in phase `phase`, and
    /// returns the phase it reaches with the actions it asked for, one per
    /// signal and in their order.
    pub fn replay(phase: Phase, signals: &Vec<Signal>) -> (outcome: (Phase, Vec<Action>))
        ensures
            (outcome.0, action_models(outcome.1@)) == run(phase, signal_models(signals@)),
    {
        let ghost all = signal_models(signals@);
        let n: usize = signals.len();
        let mut current = phase;
        let mut actions: Vec<Action> = Vec::new();
        let mut i: usize = 0;
        while i < n
            invariant
                n == signals@.len(),
                all == signal_models(signals@),
                i <= n,
                actions@.len() == i,
                (current, action_models(actions@)) == run(phase, all.take(i as int)),
            decreases n - i,
        {
            let (next, action) = Listener::step(current, &signals[i]);
            proof {
                assert(all.take(i + 1).drop_last() =~= all.take(i as int));
                assert(all.take(i + 1).last() == signals@[i as int]@);
                assert(action_models(actions@.push(action)) =~= action_models(actions@).push(
                    action@,
                ));
            }
            current = next;
            actions.push(action);
            i += 1;
        }
        assert(all.take(n as int) =~= all);
        (current, actions)
    }
}

} // verus!

//! The signals the daemon watches and what each one asks of it.

use vstd::prelude::*;
use crate::daemon::Input;

verus! {

/// A signal that the daemon watches.
#[derive(Clone, Copy, Debug, PartialEq, Eq, Structural)]
pub enum Signal {
    /// `SIGUSR1`: the key chord was pressed.
    User1,
    /// `SIGTERM`.
    Terminate,
    /// `SIGINT`.
    Interrupt,
}

impl Signal {
    /// What the signal asks of the daemon: the first user signal asks for a
    /// switch, the other two for the end of the daemon.
    pub open spec fn input(self) -> Input {
        match self {
            Signal::User1 => Input::Switch,
            Signal::Terminate => Input::Terminate,
            Signal::Interrupt => Input::Terminate,
        }
    }

    /// The name under which `pkill` takes the signal.
    pub open spec fn name(self) -> Seq<char> {
        match self {
            Signal::User1 => "USR1"@,
            Signal::Terminate => "TERM"@,
            Signal::Interrupt => "INT"@,
        }
    }

    /// What the signal asks of the daemon.
    pub fn to_input(&self) -> (input: Input)
        ensures
            input == self.input(),
    {
        match self {
            Signal::User1 => Input::Switch,
            Signal::Terminate => Input::Terminate,
            Signal::Interrupt => Input::Terminate,
        }
    }

    /// The name under which `pkill` takes the signal.
    pub fn pkill_name(&self) -> (name: &'static str)
        ensures
            name@ == self.name(),
    {
        match self {
            Signal::User1 => "USR1",
            Signal::Terminate => "TERM",
            Signal::Interrupt => "INT",
        }
    }
}

/// The signal that asks for a switch: the one that the key binding raises.
pub open spec fn switch_signal() -> Signal {
    Signal::User1
}

/// The signals for which the daemon installs handlers.
pub fn watched() -> (signals: Vec<Signal>)
    ensures
        signals@ == seq![Signal::User1, Signal::Terminate, Signal::Interrupt],
{
    let mut signals: Vec<Signal> = Vec::new();
    signals.push(Signal::User1);
    signals.push(Signal::Terminate);
    signals.push(Signal::Interrupt);
    signals
}

/// Among the watched signals, the one that the key binding raises is the
/// only one that asks for a switch; each of the others ends the daemon.
pub proof fn only_the_bound_signal_switches(signal: Signal)
    ensures
        signal.input() == Input::Switch <==> signal == switch_signal(),
        signal != switch_signal() ==> signal.input() == Input::Terminate,
{
}

} // verus!

//! The kinds of failure the daemon meets and what each one means for it.

use vstd::prelude::*;

verus! {

/// The kind of a failure.
#[derive(Clone, Copy, Debug, PartialEq, Eq, Structural)]
pub enum Fault {
    /// The window manager cannot be reached, or its event stream broke.
    Connection,
    /// The window manager's tree holds no focused window.
    Query,
    /// The window manager rejected a focus, bind or unbind command.
    Command,
    /// The pid file cannot be created, or the key chord is taken.
    Resource,
}

impl Fault {
    /// Whether the daemon must end after this failure. Only a rejected
    /// command leaves it running: that failure is reported, and the daemon
    /// goes on.
    pub open spec fn fatal(self) -> bool {
        !(self is Command)
    }

    /// Whether the daemon must end after this failure.
    pub fn is_fatal(&self) -> (fatal: bool)
        ensures
            fatal == self.fatal(),
    {
        match self {
            Fault::Command => false,
            _ => true,
        }
    }
}

/// Whether the window manager rejected a command: its reply holds one outcome
/// for each part of the command, and some part did not succeed.
pub open spec fn rejected(outcomes: Seq<bool>) -> bool {
    exists|i: int| 0 <= i < outcomes.len() && !outcomes[i]
}

/// The failure that a reply to a command reports, if any.
pub fn reply_fault(outcomes: &Vec<bool>) -> (fault: Option<Fault>)
    ensures
        fault == if rejected(outcomes@) {
            Some(Fault::Command)
        } else {
            None
        },
{
    let mut i: usize = 0;
    while i < outcomes.len()
        invariant
            i <= outcomes.len(),
            forall|j: int| 0 <= j < i ==> outcomes@[j],
        decreases outcomes.len() - i,
    {
        if !outcomes[i] {
            return Some(Fault::Command);
        }
        i += 1;
    }
    None
}

} // verus!

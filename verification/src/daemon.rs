//! The daemon as a state machine: what it does on each notification, signal,
//! completed setup step and failure. The caller performs the effects.

use vstd::prelude::*;
use crate::event::Notification;
use crate::fault::Fault;
use crate::focus::{FocusHistory, FocusPair, WindowId};

verus! {

/// How far the daemon has come. Setup moves through the stages in this order;
/// `Stopped` is final.
#[derive(Clone, Copy, Debug, PartialEq, Eq, Structural)]
pub enum Stage {
    /// The focused window is known; nothing is set up yet.
    FocusKnown,
    /// The handlers of the switch and termination signals are installed.
    HandlersInstalled,
    /// The process runs in the background and its pid file exists.
    Detached,
    /// The key chord is bound; the event stream is being consumed.
    Running,
    /// Setup has been undone, or the daemon gave up.
    Stopped,
}

/// One step of setup.
#[derive(Clone, Copy, Debug, PartialEq, Eq, Structural)]
pub enum SetupStep {
    InstallHandlers,
    Detach,
    BindKey,
}

/// What the daemon is told.
#[derive(Clone, Copy, Debug, PartialEq, Eq, Structural)]
pub enum Input {
    /// The event stream delivered an item.
    Event(Notification),
    /// The switch signal arrived.
    Switch,
    /// A termination signal arrived.
    Terminate,
    /// A setup step was carried out.
    Completed(SetupStep),
    /// Something the daemon asked for failed.
    Failed(Fault),
}

/// What the daemon asks its caller to do.
#[derive(Clone, Copy, Debug, PartialEq, Eq, Structural)]
pub enum Effect {
    /// Send the command that gives the focus to this window.
    Focus(WindowId),
    /// Send the command that removes the key binding.
    UnbindKey,
    /// Delete the pid file.
    RemovePidFile,
    /// End the process: with success after a termination signal, with failure
    /// otherwise.
    Exit { clean: bool },
}

/// What a [`Daemon`] holds.
pub struct DaemonState {
    pub focus: FocusPair,
    pub stage: Stage,
}

impl DaemonState {
    /// The state right after the focused window was found.
    pub open spec fn fresh(initial: WindowId) -> DaemonState {
        DaemonState { focus: FocusPair::seeded(initial), stage: Stage::FocusKnown }
    }

    /// Whether the pid file exists.
    pub open spec fn pid_file_written(self) -> bool {
        self.stage is Detached || self.stage is Running
    }

    /// Whether the key chord is bound.
    pub open spec fn key_bound(self) -> bool {
        self.stage is Running
    }

    /// The setup step that is due, if any.
    pub open spec fn next_step(self) -> Option<SetupStep> {
        match self.stage {
            Stage::FocusKnown => Some(SetupStep::InstallHandlers),
            Stage::HandlersInstalled => Some(SetupStep::Detach),
            Stage::Detached => Some(SetupStep::BindKey),
            Stage::Running => None,
            Stage::Stopped => None,
        }
    }

    /// The state after `step` was carried out. A step that is not due
    /// changes nothing.
    pub open spec fn completed(self, step: SetupStep) -> DaemonState {
        if self.next_step() == Some(step) {
            let stage = match step {
                SetupStep::InstallHandlers => Stage::HandlersInstalled,
                SetupStep::Detach => Stage::Detached,
                SetupStep::BindKey => Stage::Running,
            };
            DaemonState { stage, ..self }
        } else {
            self
        }
    }

    /// What ending the daemon takes: setup is undone in reverse, as far as
    /// it had come, and the process exits. A stopped daemon has nothing
    /// left to do.
    pub open spec fn teardown(self, clean: bool) -> Seq<Effect> {
        if self.stage is Stopped {
            Seq::empty()
        } else {
            let unbind = if self.key_bound() {
                seq![Effect::UnbindKey]
            } else {
                Seq::empty()
            };
            let remove = if self.pid_file_written() {
                seq![Effect::RemovePidFile]
            } else {
                Seq::empty()
            };
            unbind + remove + seq![Effect::Exit { clean }]
        }
    }

    /// The state after the daemon ended.
    pub open spec fn stopped(self) -> DaemonState {
        DaemonState { stage: Stage::Stopped, ..self }
    }

    /// The state after `input`, and the effects that `input` calls for.
    ///
    /// A focus change enters the history; any other event of the stream is
    /// ignored, but a lost stream ends the daemon. The switch signal asks
    /// for the focus on the previous window and changes nothing. A
    /// termination signal ends the daemon, and so does a fatal failure.
    pub open spec fn step(self, input: Input) -> (DaemonState, Seq<Effect>) {
        match input {
            Input::Event(Notification::Lost) => (self.stopped(), self.teardown(false)),
            Input::Event(notification) => match notification.focus_target() {
                Some(window) => (
                    DaemonState { focus: self.focus.observed(window), ..self },
                    Seq::empty(),
                ),
                None => (self, Seq::empty()),
            },
            Input::Switch => (self, seq![Effect::Focus(self.focus.previous)]),
            Input::Terminate => (self.stopped(), self.teardown(true)),
            Input::Completed(step) => (self.completed(step), Seq::empty()),
            Input::Failed(fault) => if fault.fatal() {
                (self.stopped(), self.teardown(false))
            } else {
                (self, Seq::empty())
            },
        }
    }

    /// The state after `inputs`, oldest first, and all the effects they
    /// called for, in order.
    pub open spec fn run(self, inputs: Seq<Input>) -> (DaemonState, Seq<Effect>)
        decreases inputs.len(),
    {
        if inputs.len() == 0 {
            (self, Seq::empty())
        } else {
            let (before, earlier) = self.run(inputs.drop_last());
            let (after, latest) = before.step(inputs.last());
            (after, earlier + latest)
        }
    }
}

/// The daemon's state: the focus history and the stage of its life.
#[derive(Clone, Copy, Debug, PartialEq, Eq)]
pub struct Daemon {
    history: FocusHistory,
    stage: Stage,
}

impl View for Daemon {
    type V = DaemonState;

    closed spec fn view(&self) -> DaemonState {
        DaemonState { focus: self.history@, stage: self.stage }
    }
}

impl Daemon {
    /// A daemon that has just learnt which window has the focus.
    pub fn new(initial: WindowId) -> (daemon: Daemon)
        ensures
            daemon@ == DaemonState::fresh(initial),
    {
        Daemon { history: FocusHistory::new(initial), stage: Stage::FocusKnown }
    }

    /// The focus history.
    pub fn history(&self) -> (history: FocusHistory)
        ensures
            history@ == self@.focus,
    {
        self.history
    }

    /// The stage the daemon is in.
    pub fn stage(&self) -> (stage: Stage)
        ensures
            stage == self@.stage,
    {
        self.stage
    }

    /// The setup step that is due, if any. When none is due and the daemon
    /// is running, the event stream is to be consumed.
    pub fn next_step(&self) -> (step: Option<SetupStep>)
        ensures
            step == self@.next_step(),
    {
        match self.stage {
            Stage::FocusKnown => Some(SetupStep::InstallHandlers),
            Stage::HandlersInstalled => Some(SetupStep::Detach),
            Stage::Detached => Some(SetupStep::BindKey),
            Stage::Running => None,
            Stage::Stopped => None,
        }
    }

    fn complete(&mut self, step: SetupStep)
        ensures
            final(self)@ == old(self)@.completed(step),
    {
        match (self.stage, step) {
            (Stage::FocusKnown, SetupStep::InstallHandlers) => {
                self.stage = Stage::HandlersInstalled;
            },
            (Stage::HandlersInstalled, SetupStep::Detach) => {
                self.stage = Stage::Detached;
            },
            (Stage::Detached, SetupStep::BindKey) => {
                self.stage = Stage::Running;
            },
            _ => {},
        }
    }

    fn shut_down(&mut self, clean: bool) -> (effects: Vec<Effect>)
        ensures
            final(self)@ == old(self)@.stopped(),
            effects@ == old(self)@.teardown(clean),
    {
        let mut effects: Vec<Effect> = Vec::new();
        match self.stage {
            Stage::Stopped => {},
            Stage::Running => {
                effects.push(Effect::UnbindKey);
                effects.push(Effect::RemovePidFile);
                effects.push(Effect::Exit { clean });
            },
            Stage::Detached => {
                effects.push(Effect::RemovePidFile);
                effects.push(Effect::Exit { clean });
            },
            _ => {
                effects.push(Effect::Exit { clean });
            },
        }
        self.stage = Stage::Stopped;
        effects
    }

    /// Takes `input` in and returns the effects it calls for, in the order
    /// in which they are to be performed.
    pub fn handle(&mut self, input: Input) -> (effects: Vec<Effect>)
        ensures
            final(self)@ == old(self)@.step(input).0,
            effects@ == old(self)@.step(input).1,
    {
        match input {
            Input::Event(Notification::Lost) => self.shut_down(false),
            Input::Event(notification) => {
                match notification.focused_window() {
                    Some(window) => {
                        self.history.observe(window);
                    },
                    None => {},
                }
                Vec::new()
            },
            Input::Switch => {
                let mut effects: Vec<Effect> = Vec::new();
                effects.push(Effect::Focus(self.history.read_previous()));
                effects
            },
            Input::Terminate => self.shut_down(true),
            Input::Completed(step) => {
                self.complete(step);
                Vec::new()
            },
            Input::Failed(fault) => {
                if fault.is_fatal() {
                    self.shut_down(false)
                } else {
                    Vec::new()
                }
            },
        }
    }
}

} // verus!

//! What the daemon's state machine guarantees over single steps and over
//! whole runs.

use vstd::prelude::*;
use crate::command::{command_text, focus_text, SettingsView};
use crate::daemon::{DaemonState, Effect, Input, SetupStep};
use crate::event::{Notification, WindowChange};
use crate::fault::Fault;
use crate::focus::{previous_is_prior_current, FocusPair, WindowId};

verus! {

/// The focus was on `from` and moved to `to`. A switch requested after that
/// asks for the focus on `from` and leaves the state as it is, so a switch
/// requested right after the first asks for the same window again.
pub proof fn switch_targets_prior_focus(state: DaemonState, to: WindowId)
    ensures
        ({
            let from = state.focus.current;
            let focus = Input::Event(
                Notification::Window { change: WindowChange::Focus, container: to },
            );
            let moved = state.step(focus).0;
            let once = moved.step(Input::Switch);
            let twice = once.0.step(Input::Switch);
            &&& once.1 == seq![Effect::Focus(from)]
            &&& once.0 == moved
            &&& twice.1 == seq![Effect::Focus(from)]
            &&& twice.0 == moved
        }),
{
}

/// The command that carries out a switch names the window that had the focus
/// before the current one, whatever the settings are.
pub proof fn switch_command_names_prior_focus(state: DaemonState, settings: SettingsView)
    ensures
        ({
            let effects = state.step(Input::Switch).1;
            &&& effects.len() == 1
            &&& command_text(effects[0], settings) == Some(focus_text(state.focus.previous))
        }),
{
}

/// A switch requested before the focus ever moved asks for the focus on the
/// window that had it at startup.
pub proof fn first_switch_refocuses_initial(initial: WindowId)
    ensures
        DaemonState::fresh(initial).step(Input::Switch).1 == seq![Effect::Focus(initial)],
        DaemonState::fresh(initial).step(Input::Switch).0 == DaemonState::fresh(initial),
{
}

/// An event about a window that is no change of focus, and an event about
/// anything else, changes neither the focus history nor the stage, and
/// calls for nothing.
pub proof fn only_focus_changes_count(state: DaemonState, notification: Notification)
    requires
        !(notification is Lost),
        notification matches Notification::Window { change, .. } ==> !(change is Focus),
    ensures
        state.step(Input::Event(notification)) == (state, Seq::<Effect>::empty()),
{
}

/// A rejected command changes nothing: the history and the stage stay as
/// they are, and the daemon goes on.
pub proof fn rejected_command_is_survived(state: DaemonState)
    ensures
        state.step(Input::Failed(Fault::Command)) == (state, Seq::<Effect>::empty()),
{
}

/// A termination signal undoes what setup had done and ends the process; a
/// second one right after it finds nothing left to do. From a running
/// daemon the first removes the key binding, then the pid file, then exits.
pub proof fn second_termination_does_nothing(state: DaemonState)
    ensures
        ({
            let first = state.step(Input::Terminate);
            let second = first.0.step(Input::Terminate);
            &&& first.1 == state.teardown(true)
            &&& second.1 == Seq::<Effect>::empty()
            &&& second.0 == first.0
            &&& state.stage is Running ==> first.1 == seq![
                Effect::UnbindKey,
                Effect::RemovePidFile,
                Effect::Exit { clean: true },
            ]
        }),
{
}

/// When the daemon ends, the process exits last: what undoes setup comes
/// before it.
pub proof fn exit_comes_last(state: DaemonState, clean: bool)
    ensures
        state.teardown(clean).len() > 0 ==> state.teardown(clean).last() == (Effect::Exit {
            clean,
        }),
        state.teardown(clean).len() > 0 <==> !(state.stage is Stopped),
{
}

/// The window that `input` reports as newly focused, if it reports a focus
/// change.
pub open spec fn focus_change(input: Input) -> Option<WindowId> {
    match input {
        Input::Event(notification) => notification.focus_target(),
        _ => None,
    }
}

/// The focus changes that `inputs` report, oldest first.
pub open spec fn focus_changes(inputs: Seq<Input>) -> Seq<WindowId>
    decreases inputs.len(),
{
    if inputs.len() == 0 {
        Seq::empty()
    } else {
        match focus_change(inputs.last()) {
            Some(window) => focus_changes(inputs.drop_last()).push(window),
            None => focus_changes(inputs.drop_last()),
        }
    }
}

/// Whatever else the daemon is told between the focus changes, and in
/// whatever order, its history is the one that the focus changes alone
/// lead to: a switch signal, a termination signal, a setup step or a
/// failure never alters it, and no focus change is lost.
pub proof fn history_follows_focus_changes(initial: WindowId, inputs: Seq<Input>)
    ensures
        DaemonState::fresh(initial).run(inputs).0.focus == FocusPair::seeded(initial).replay(
            focus_changes(inputs),
        ),
    decreases inputs.len(),
{
    if inputs.len() > 0 {
        history_follows_focus_changes(initial, inputs.drop_last());
        let seen = focus_changes(inputs.drop_last());
        match focus_change(inputs.last()) {
            Some(window) => {
                assert(seen.push(window).drop_last() =~= seen);
            },
            None => {},
        }
    }
}

/// A switch signal that arrives after `inputs`, however the focus changes
/// among them are interleaved with other inputs, asks for the focus on the
/// window that was current just before the latest focus change: the window
/// of the change before it, or the window focused at startup when fewer than
/// two changes came.
pub proof fn switch_reads_prior_focus(initial: WindowId, inputs: Seq<Input>)
    ensures
        ({
            let state = DaemonState::fresh(initial).run(inputs).0;
            let changes = focus_changes(inputs);
            let prior = if changes.len() < 2 {
                initial
            } else {
                changes[changes.len() - 2]
            };
            &&& state.step(Input::Switch).1 == seq![Effect::Focus(prior)]
            &&& changes.len() > 0 ==> state.focus.current == changes.last()
        }),
{
    let changes = focus_changes(inputs);
    history_follows_focus_changes(initial, inputs);
    if changes.len() > 0 {
        previous_is_prior_current(FocusPair::seeded(initial), changes, changes.len() as int);
        assert(changes.take(changes.len() as int) =~= changes);
    }
}

/// Whether `window` had the focus at some time: at startup, or through a
/// focus change that `inputs` report.
pub open spec fn was_focused(initial: WindowId, inputs: Seq<Input>, window: WindowId) -> bool {
    window == initial || exists|i: int|
        0 <= i < inputs.len() && #[trigger] focus_change(inputs[i]) == Some(window)
}

/// Whether `effect`, if it asks for a switch, asks for one to a window that
/// had the focus at some time.
pub open spec fn goes_to_focused(initial: WindowId, inputs: Seq<Input>, effect: Effect) -> bool {
    match effect {
        Effect::Focus(window) => was_focused(initial, inputs, window),
        _ => true,
    }
}

proof fn was_focused_stays(initial: WindowId, inputs: Seq<Input>, window: WindowId)
    requires
        inputs.len() > 0,
        was_focused(initial, inputs.drop_last(), window),
    ensures
        was_focused(initial, inputs, window),
{
    let earlier = inputs.drop_last();
    if window != initial {
        let i = choose|i: int|
            0 <= i < earlier.len() && #[trigger] focus_change(earlier[i]) == Some(window);
        assert(inputs[i] == earlier[i]);
    }
}

/// Whatever the daemon is told, both slots of its history hold windows that
/// had the focus at some time, and every switch it asks for goes to such a
/// window: never to one that the window manager did not report as focused.
pub proof fn switches_go_to_focused_windows(initial: WindowId, inputs: Seq<Input>)
    ensures
        ({
            let (end, effects) = DaemonState::fresh(initial).run(inputs);
            &&& was_focused(initial, inputs, end.focus.current)
            &&& was_focused(initial, inputs, end.focus.previous)
            &&& forall|k: int|
                0 <= k < effects.len() ==> goes_to_focused(initial, inputs, #[trigger] effects[k])
        }),
    decreases inputs.len(),
{
    if inputs.len() > 0 {
        let earlier = inputs.drop_last();
        let latest = inputs.len() - 1;
        switches_go_to_focused_windows(initial, earlier);
        let (before, asked) = DaemonState::fresh(initial).run(earlier);
        let (after, asking) = before.step(inputs.last());
        let effects = asked + asking;
        was_focused_stays(initial, inputs, before.focus.current);
        was_focused_stays(initial, inputs, before.focus.previous);
        if after.focus.current != before.focus.current {
            assert(focus_change(inputs[latest]) == Some(after.focus.current));
        }
        assert forall|k: int| 0 <= k < effects.len() implies goes_to_focused(
            initial,
            inputs,
            #[trigger] effects[k],
        ) by {
            if k < asked.len() {
                if let Effect::Focus(window) = asked[k] {
                    was_focused_stays(initial, inputs, window);
                }
            }
        }
    }
}

/// Picks the requests to remove the key binding.
pub open spec fn unbinding() -> spec_fn(Effect) -> bool {
    |effect: Effect| effect is UnbindKey
}

/// Picks the requests to delete the pid file.
pub open spec fn removing() -> spec_fn(Effect) -> bool {
    |effect: Effect| effect is RemovePidFile
}

/// Picks the requests to end the process.
pub open spec fn exiting() -> spec_fn(Effect) -> bool {
    |effect: Effect| effect is Exit
}

/// Whether `effects` ask for nothing that ends the daemon.
pub open spec fn asks_no_teardown(effects: Seq<Effect>) -> bool {
    &&& effects.filter(unbinding()).len() == 0
    &&& effects.filter(removing()).len() == 0
    &&& effects.filter(exiting()).len() == 0
}

/// Whether `effects` ask at most once for the key binding to be removed, at
/// most once for the pid file to be deleted and at most once for the process
/// to end.
pub open spec fn asks_teardown_once(effects: Seq<Effect>) -> bool {
    &&& effects.filter(unbinding()).len() <= 1
    &&& effects.filter(removing()).len() <= 1
    &&& effects.filter(exiting()).len() <= 1
}

/// Whether `effects` ask exactly once for the key binding to be removed,
/// exactly once for the pid file to be deleted and exactly once for the
/// process to end.
pub open spec fn asks_whole_teardown(effects: Seq<Effect>) -> bool {
    &&& effects.filter(unbinding()).len() == 1
    &&& effects.filter(removing()).len() == 1
    &&& effects.filter(exiting()).len() == 1
}

proof fn switch_asks_no_teardown(window: WindowId)
    ensures
        asks_no_teardown(Seq::<Effect>::empty()),
        asks_no_teardown(seq![Effect::Focus(window)]),
{
    reveal_with_fuel(Seq::filter, 2);
}

proof fn teardown_asks_once(state: DaemonState, clean: bool)
    ensures
        asks_teardown_once(state.teardown(clean)),
        state.stage is Stopped ==> asks_no_teardown(state.teardown(clean)),
        state.stage is Running ==> asks_whole_teardown(state.teardown(clean)),
{
    reveal_with_fuel(Seq::filter, 4);
}

proof fn step_asks_teardown_once(state: DaemonState, input: Input)
    ensures
        ({
            let (after, effects) = state.step(input);
            &&& asks_teardown_once(effects)
            &&& state.stage is Stopped ==> after.stage is Stopped
            &&& state.stage is Running ==> after.stage is Running || after.stage is Stopped
            &&& !(after.stage is Stopped) || state.stage is Stopped ==> asks_no_teardown(effects)
            &&& state.stage is Running && after.stage is Stopped ==> asks_whole_teardown(effects)
        }),
{
    switch_asks_no_teardown(state.focus.previous);
    teardown_asks_once(state, true);
    teardown_asks_once(state, false);
}

/// Whatever the daemon is told, and however often, over its whole life it
/// asks at most once for the key binding to be removed, at most once for the
/// pid file to be deleted and at most once for the process to end; it asks
/// for none of these before it stops, and for none once it has stopped. A
/// running daemon that is brought to a stop, by however many termination
/// signals and failures, asks for each of the three exactly once.
pub proof fn teardown_happens_once(start: DaemonState, inputs: Seq<Input>)
    ensures
        ({
            let (end, effects) = start.run(inputs);
            &&& asks_teardown_once(effects)
            &&& start.stage is Stopped ==> end.stage is Stopped
            &&& start.stage is Running ==> end.stage is Running || end.stage is Stopped
            &&& !(end.stage is Stopped) || start.stage is Stopped ==> asks_no_teardown(effects)
            &&& start.stage is Running && end.stage is Stopped ==> asks_whole_teardown(effects)
        }),
    decreases inputs.len(),
{
    if inputs.len() == 0 {
        switch_asks_no_teardown(0);
    } else {
        teardown_happens_once(start, inputs.drop_last());
        let (before, earlier) = start.run(inputs.drop_last());
        let (after, latest) = before.step(inputs.last());
        step_asks_teardown_once(before, inputs.last());
        Seq::filter_distributes_over_add(earlier, latest, unbinding());
        Seq::filter_distributes_over_add(earlier, latest, removing());
        Seq::filter_distributes_over_add(earlier, latest, exiting());
    }
}

/// Whether `inputs` report that the handlers were installed.
pub open spec fn reports_handlers(inputs: Seq<Input>) -> bool {
    exists|i: int|
        0 <= i < inputs.len() && #[trigger] inputs[i] == Input::Completed(
            SetupStep::InstallHandlers,
        )
}

/// Whether `inputs` report that the handlers were installed and, later, that
/// the process was detached.
pub open spec fn reports_detach(inputs: Seq<Input>) -> bool {
    exists|i: int, j: int|
        #![trigger inputs[i], inputs[j]]
        0 <= i < j < inputs.len() && inputs[i] == Input::Completed(SetupStep::InstallHandlers)
            && inputs[j] == Input::Completed(SetupStep::Detach)
}

/// Whether `inputs` report the three setup steps in their order; other
/// inputs may lie between them.
pub open spec fn reports_setup(inputs: Seq<Input>) -> bool {
    exists|i: int, j: int, k: int|
        #![trigger inputs[i], inputs[j], inputs[k]]
        0 <= i < j < k < inputs.len() && inputs[i] == Input::Completed(
            SetupStep::InstallHandlers,
        ) && inputs[j] == Input::Completed(SetupStep::Detach) && inputs[k] == Input::Completed(
            SetupStep::BindKey,
        )
}

/// A daemon is past a stage of setup only when it was told, in order, of
/// every step up to that stage: the pid file counts as written only after the
/// handlers were installed, and the daemon consumes events only after the
/// handlers were installed, the process was detached and the key was bound,
/// in this order.
pub proof fn setup_is_done_in_order(initial: WindowId, inputs: Seq<Input>)
    ensures
        ({
            let stage = DaemonState::fresh(initial).run(inputs).0.stage;
            &&& stage is HandlersInstalled ==> reports_handlers(inputs)
            &&& stage is Detached ==> reports_detach(inputs)
            &&& stage is Running ==> reports_setup(inputs)
        }),
    decreases inputs.len(),
{
    if inputs.len() > 0 {
        setup_is_done_in_order(initial, inputs.drop_last());
    }
}

} // verus!

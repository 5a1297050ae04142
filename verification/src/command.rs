//! The settings of a daemon and the texts it hands to the window manager.

use vstd::prelude::*;
use crate::daemon::Effect;
use crate::focus::WindowId;
use crate::signal::{switch_signal, Signal};
use crate::text::{decimal, decimal_is_injective, push_decimal};

verus! {

/// The key chord that triggers a switch when none is chosen.
pub open spec fn default_key_combo() -> Seq<char> {
    "Mod1+Tab"@
}

/// The directory that holds the pid file when the runtime directory is unknown.
pub open spec fn default_runtime_dir() -> Seq<char> {
    "/tmp"@
}

/// The path of the pid file in a runtime directory.
pub open spec fn pid_file_text(runtime_dir: Seq<char>) -> Seq<char> {
    runtime_dir + "/sway-alttab.pid"@
}

/// The program that a press of the key chord runs: it raises the switch signal
/// in the process that the pid file names.
pub open spec fn trigger_text(runtime_dir: Seq<char>) -> Seq<char> {
    "pkill -"@ + switch_signal().name() + " -F "@ + pid_file_text(runtime_dir)
}

/// The command that binds the key chord to the switch signal.
pub open spec fn bind_text(key_combo: Seq<char>, runtime_dir: Seq<char>) -> Seq<char> {
    "bindsym "@ + key_combo + " exec "@ + trigger_text(runtime_dir)
}

/// The command that removes the binding made by [`bind_text`].
pub open spec fn unbind_text(key_combo: Seq<char>, runtime_dir: Seq<char>) -> Seq<char> {
    "unbindsym "@ + key_combo + " exec "@ + trigger_text(runtime_dir)
}

/// The command that gives the focus to a window.
pub open spec fn focus_text(window: WindowId) -> Seq<char> {
    "[con_id="@ + decimal(window as int) + "] focus"@
}

/// The text of the command that carries out `effect`, where a command to the
/// window manager does: a switch and the removal of the key binding.
pub open spec fn command_text(effect: Effect, settings: SettingsView) -> Option<Seq<char>> {
    match effect {
        Effect::Focus(window) => Some(focus_text(window)),
        Effect::UnbindKey => Some(unbind_text(settings.key_combo, settings.runtime_dir)),
        Effect::RemovePidFile => None,
        Effect::Exit { .. } => None,
    }
}

/// What a [`Settings`] value holds.
pub struct SettingsView {
    pub key_combo: Seq<char>,
    pub runtime_dir: Seq<char>,
}

/// The key chord of the switch and the directory of the pid file.
#[derive(Debug)]
pub struct Settings {
    key_combo: String,
    runtime_dir: String,
}

impl View for Settings {
    type V = SettingsView;

    closed spec fn view(&self) -> SettingsView {
        SettingsView { key_combo: self.key_combo@, runtime_dir: self.runtime_dir@ }
    }
}

impl Settings {
    /// Settings from what the command line and the environment gave; a value
    /// that is absent takes its default.
    pub fn new(key_combo: Option<String>, runtime_dir: Option<String>) -> (settings: Settings)
        ensures
            settings@.key_combo == match key_combo {
                Some(chosen) => chosen@,
                None => default_key_combo(),
            },
            settings@.runtime_dir == match runtime_dir {
                Some(chosen) => chosen@,
                None => default_runtime_dir(),
            },
    {
        let key_combo = match key_combo {
            Some(chosen) => chosen,
            None => String::from_str("Mod1+Tab"),
        };
        let runtime_dir = match runtime_dir {
            Some(chosen) => chosen,
            None => String::from_str("/tmp"),
        };
        Settings { key_combo, runtime_dir }
    }

    /// The key chord that triggers a switch.
    pub fn key_combo(&self) -> (text: &str)
        ensures
            text@ == self@.key_combo,
    {
        self.key_combo.as_str()
    }

    /// The directory that holds the pid file.
    pub fn runtime_dir(&self) -> (text: &str)
        ensures
            text@ == self@.runtime_dir,
    {
        self.runtime_dir.as_str()
    }

    /// The path of the pid file.
    pub fn pid_file(&self) -> (path: String)
        ensures
            path@ == pid_file_text(self@.runtime_dir),
    {
        let mut path = self.runtime_dir.clone();
        path.append("/sway-alttab.pid");
        path
    }

    fn push_binding(&self, command: &mut String)
        ensures
            final(command)@ == old(command)@ + self@.key_combo + " exec "@ + trigger_text(
                self@.runtime_dir,
            ),
    {
        command.append(self.key_combo.as_str());
        command.append(" exec ");
        command.append("pkill -");
        command.append(Signal::User1.pkill_name());
        command.append(" -F ");
        command.append(self.runtime_dir.as_str());
        command.append("/sway-alttab.pid");
    }

    /// The command that binds the key chord to the switch signal.
    pub fn bind_command(&self) -> (command: String)
        ensures
            command@ == bind_text(self@.key_combo, self@.runtime_dir),
    {
        let mut command = String::from_str("bindsym ");
        self.push_binding(&mut command);
        command
    }

    /// The command that removes the binding of the key chord.
    pub fn unbind_command(&self) -> (command: String)
        ensures
            command@ == unbind_text(self@.key_combo, self@.runtime_dir),
    {
        let mut command = String::from_str("unbindsym ");
        self.push_binding(&mut command);
        command
    }

    /// The command that carries out `effect`, where a command to the window
    /// manager does.
    pub fn command_for(&self, effect: Effect) -> (command: Option<String>)
        ensures
            match command {
                Some(text) => command_text(effect, self@) == Some(text@),
                None => command_text(effect, self@) is None,
            },
    {
        match effect {
            Effect::Focus(window) => Some(focus_command(window)),
            Effect::UnbindKey => Some(self.unbind_command()),
            Effect::RemovePidFile => None,
            Effect::Exit { .. } => None,
        }
    }
}

/// The command that gives the focus to `window`.
pub fn focus_command(window: WindowId) -> (command: String)
    ensures
        command@ == focus_text(window),
{
    let mut command = String::from_str("[con_id=");
    push_decimal(&mut command, window);
    command.append("] focus");
    command
}

/// Commands that give the focus to different windows differ: a focus command
/// names one window and no other.
pub proof fn focus_text_is_injective(a: WindowId, b: WindowId)
    requires
        focus_text(a) == focus_text(b),
    ensures
        a == b,
{
    let head = "[con_id="@;
    let tail = "] focus"@;
    let of_a = decimal(a as int);
    let of_b = decimal(b as int);
    assert(focus_text(a).len() == head.len() + of_a.len() + tail.len());
    assert(focus_text(b).len() == head.len() + of_b.len() + tail.len());
    assert(of_a =~= focus_text(a).subrange(head.len() as int, (head.len() + of_a.len()) as int));
    assert(of_b =~= focus_text(b).subrange(head.len() as int, (head.len() + of_b.len()) as int));
    decimal_is_injective(a as int, b as int);
}

/// The command that removes the key binding names the binding that the bind
/// command made: the same key chord and the same program, whatever the
/// settings are.
pub proof fn unbind_names_the_binding(key_combo: Seq<char>, runtime_dir: Seq<char>)
    ensures
        unbind_text(key_combo, runtime_dir) == "un"@ + bind_text(key_combo, runtime_dir),
{
    reveal_strlit("un");
    reveal_strlit("bindsym ");
    reveal_strlit("unbindsym ");
    assert("unbindsym "@ =~= "un"@ + "bindsym "@);
    assert(unbind_text(key_combo, runtime_dir) =~= "un"@ + bind_text(key_combo, runtime_dir));
}

} // verus!
